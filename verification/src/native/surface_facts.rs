//! The format of the drawable, or why it could not be observed.
//!
//! The drawable is no row of the format table, so that nothing else tells a
//! presenter what it presents. The widths are read from the color buffer that
//! is drawn to. With another framebuffer bound the same questions would be
//! about that one; then nothing is recorded but the reason.
//!
//! Color widths and sample counts are required together. Depth and stencil are
//! only reported: a drawable may have neither. Its color encoding is not
//! recorded, for no accepted context can be asked for it.

use vstd::prelude::*;
use vstd::string::*;
use crate::api::discovery::GlSurfaceFacts;
use crate::native::glow_const;
use crate::native::query;
use crate::native::query::{Inspection, NativeGlProbes, NativeGlQuery, QueryLink, QueryStep};
use crate::text;
use crate::text::{push_decimal, TextSet};

verus! {

/// Whether a number can be a width or a count.
pub open spec fn is_width(value: i64) -> bool {
    0 <= value <= u32::MAX
}

/// A color buffer of the drawable.
#[derive(Clone, Copy, Debug, PartialEq, Eq, Structural)]
pub enum ColorBuffer {
    /// The one that a double-buffered window draws to.
    BackLeft,
    /// The only one that a single-buffered window has.
    FrontLeft,
}

impl ColorBuffer {
    pub open spec fn spec_token(self) -> u32 {
        match self {
            ColorBuffer::BackLeft => glow_const::BACK_LEFT,
            ColorBuffer::FrontLeft => glow_const::FRONT_LEFT,
        }
    }

    fn token(self) -> (result: u32)
        ensures
            result == self.spec_token(),
    {
        match self {
            ColorBuffer::BackLeft => glow_const::BACK_LEFT,
            ColorBuffer::FrontLeft => glow_const::FRONT_LEFT,
        }
    }

    pub open spec fn spec_name(self) -> &'static str {
        match self {
            ColorBuffer::BackLeft => "GL_BACK_LEFT",
            ColorBuffer::FrontLeft => "GL_FRONT_LEFT",
        }
    }

    fn name(self) -> (result: &'static str)
        ensures
            result == self.spec_name(),
    {
        match self {
            ColorBuffer::BackLeft => "GL_BACK_LEFT",
            ColorBuffer::FrontLeft => "GL_FRONT_LEFT",
        }
    }
}

/// The remark that a question about the drawable failed.
pub open spec fn failed_mark(what: Seq<char>) -> Seq<char> {
    "gl.surface-facts-unavailable=query-failed:"@ + what
}

/// The remark that the driver would not say whether there is a color buffer.
pub open spec fn refused_mark(buffer: ColorBuffer) -> Seq<char> {
    failed_mark(buffer.spec_name()@ + ":GL_FRAMEBUFFER_ATTACHMENT_OBJECT_TYPE"@)
}

/// The remark that a width could not be read.
pub open spec fn width_mark(buffer: ColorBuffer, name: &'static str) -> Seq<char> {
    failed_mark(buffer.spec_name()@ + ":"@ + name@)
}

/// The set with a text, if it is wanted.
pub open spec fn with_if(texts: Set<Seq<char>>, wanted: bool, text: Seq<char>) -> Set<Seq<char>> {
    if wanted {
        texts.insert(text)
    } else {
        texts
    }
}

impl Inspection {
    /// The color buffer of the drawable, or the remarks why there is none.
    pub open spec fn color_buffer(self, o: Seq<QueryStep>) -> (
        Inspection,
        Option<ColorBuffer>,
        Set<Seq<char>>,
    ) {
        let (first, back) = self.drawable_attachment(
            glow_const::BACK_LEFT,
            glow_const::FRAMEBUFFER_ATTACHMENT_OBJECT_TYPE,
            o,
        );
        if back is Some && back->0 != 0 {
            (first, Some(ColorBuffer::BackLeft), Set::empty())
        } else {
            let (second, front) = first.drawable_attachment(
                glow_const::FRONT_LEFT,
                glow_const::FRAMEBUFFER_ATTACHMENT_OBJECT_TYPE,
                o,
            );
            if front is Some && front->0 != 0 {
                (second, Some(ColorBuffer::FrontLeft), Set::empty())
            } else {
                (
                    second,
                    None,
                    if back is Some && front is Some {
                        set!["gl.surface-facts-unavailable=no-color-attachment"@]
                    } else {
                        with_if(
                            with_if(
                                Set::empty(),
                                back is None,
                                refused_mark(ColorBuffer::BackLeft),
                            ),
                            front is None,
                            refused_mark(ColorBuffer::FrontLeft),
                        )
                    },
                )
            }
        }
    }

    /// The remark on an attachment that the drawable may lack.
    pub open spec fn optional_attachment(
        self,
        key: &'static str,
        attachment: u32,
        size: u32,
        o: Seq<QueryStep>,
    ) -> (Inspection, Seq<char>) {
        let (first, kind) = self.drawable_attachment(
            attachment,
            glow_const::FRAMEBUFFER_ATTACHMENT_OBJECT_TYPE,
            o,
        );
        if kind == Some(0i64) {
            (first, "gl.surface-"@ + key@ + "-attachment=none"@)
        } else if kind is None {
            (first, "gl.surface-"@ + key@ + "-attachment=unqueried"@)
        } else {
            let (second, width) = first.drawable_attachment(attachment, size, o);
            (
                second,
                match width {
                    None => "gl.surface-"@ + key@ + "-attachment=unqueried"@,
                    Some(width) => if is_width(width) {
                        "gl.surface-"@ + key@ + "-bits="@ + text::decimal(width as nat)
                    } else {
                        "gl.surface-"@ + key@ + "-attachment=invalid"@
                    },
                },
            )
        }
    }

    /// The drawable with this color buffer.
    pub open spec fn observe_buffer(self, buffer: ColorBuffer, o: Seq<QueryStep>) -> (
        Inspection,
        GlSurfaceFacts,
        Set<Seq<char>>,
    ) {
        let at = buffer.spec_token();
        let (m1, red) = self.drawable_attachment(
            at,
            glow_const::FRAMEBUFFER_ATTACHMENT_RED_SIZE,
            o,
        );
        let (m2, green) = m1.drawable_attachment(
            at,
            glow_const::FRAMEBUFFER_ATTACHMENT_GREEN_SIZE,
            o,
        );
        let (m3, blue) = m2.drawable_attachment(
            at,
            glow_const::FRAMEBUFFER_ATTACHMENT_BLUE_SIZE,
            o,
        );
        let (m4, alpha) = m3.drawable_attachment(
            at,
            glow_const::FRAMEBUFFER_ATTACHMENT_ALPHA_SIZE,
            o,
        );
        let (m5, buffers) = m4.integer(glow_const::SAMPLE_BUFFERS, o);
        let (m6, samples) = m5.integer(glow_const::SAMPLES, o);
        if red is None || green is None || blue is None || alpha is None || buffers is None
            || samples is None {
            (
                m6,
                GlSurfaceFacts::Unavailable,
                unanswered(buffer, red, green, blue, alpha, buffers, samples),
            )
        } else {
            match first_invalid(buffer, red->0, green->0, blue->0, alpha->0, buffers->0, samples->0) {
                Some(mark) => (m6, GlSurfaceFacts::Unavailable, set![mark]),
                None => {
                    let (m7, depth) = m6.optional_attachment(
                        "depth",
                        glow_const::DEPTH,
                        glow_const::FRAMEBUFFER_ATTACHMENT_DEPTH_SIZE,
                        o,
                    );
                    let (m8, stencil) = m7.optional_attachment(
                        "stencil",
                        glow_const::STENCIL,
                        glow_const::FRAMEBUFFER_ATTACHMENT_STENCIL_SIZE,
                        o,
                    );
                    (
                        m8,
                        GlSurfaceFacts::Observed {
                            color_bits: (
                                red->0 as u32,
                                green->0 as u32,
                                blue->0 as u32,
                                alpha->0 as u32,
                            ),
                        },
                        Set::empty().insert(depth).insert(stencil).insert(
                            "gl.surface-color-buffer="@ + buffer.spec_name()@,
                        ).insert(
                            "gl.surface-color-bits="@ + text::decimal(red->0 as nat) + ","@
                                + text::decimal(green->0 as nat) + ","@ + text::decimal(
                                blue->0 as nat,
                            ) + ","@ + text::decimal(alpha->0 as nat),
                        ).insert("gl.surface-sample-buffers="@ + text::decimal(buffers->0 as nat)).insert(
                            "gl.surface-samples="@ + text::decimal(samples->0 as nat),
                        ).insert("gl.surface-srgb=unavailable"@),
                    )
                },
            }
        }
    }

    /// The drawable and the remarks on it.
    pub open spec fn observe(self, o: Seq<QueryStep>) -> (
        Inspection,
        GlSurfaceFacts,
        Set<Seq<char>>,
    ) {
        let (m1, binding) = self.integer(glow_const::DRAW_FRAMEBUFFER_BINDING, o);
        match binding {
            None => (
                m1,
                GlSurfaceFacts::Unavailable,
                set!["gl.surface-facts-unavailable=unqueried"@],
            ),
            Some(binding) => if binding != 0 {
                (
                    m1,
                    GlSurfaceFacts::Unavailable,
                    set!["gl.surface-facts-unavailable=draw-framebuffer-bound"@],
                )
            } else {
                let (m2, buffer, remarks) = m1.color_buffer(o);
                match buffer {
                    None => (m2, GlSurfaceFacts::Unavailable, remarks),
                    Some(buffer) => m2.observe_buffer(buffer, o),
                }
            },
        }
    }
}

/// The remarks on everything that the driver did not answer.
pub open spec fn unanswered(
    buffer: ColorBuffer,
    red: Option<i64>,
    green: Option<i64>,
    blue: Option<i64>,
    alpha: Option<i64>,
    buffers: Option<i64>,
    samples: Option<i64>,
) -> Set<Seq<char>> {
    let t1 = with_if(
        Set::empty(),
        red is None,
        width_mark(buffer, "GL_FRAMEBUFFER_ATTACHMENT_RED_SIZE"),
    );
    let t2 = with_if(
        t1,
        green is None,
        width_mark(buffer, "GL_FRAMEBUFFER_ATTACHMENT_GREEN_SIZE"),
    );
    let t3 = with_if(
        t2,
        blue is None,
        width_mark(buffer, "GL_FRAMEBUFFER_ATTACHMENT_BLUE_SIZE"),
    );
    let t4 = with_if(
        t3,
        alpha is None,
        width_mark(buffer, "GL_FRAMEBUFFER_ATTACHMENT_ALPHA_SIZE"),
    );
    let t5 = with_if(t4, buffers is None, failed_mark("GL_SAMPLE_BUFFERS"@));
    with_if(t5, samples is None, failed_mark("GL_SAMPLES"@))
}

/// The remark on the first answer that can be neither a width nor a count.
pub open spec fn first_invalid(
    buffer: ColorBuffer,
    red: i64,
    green: i64,
    blue: i64,
    alpha: i64,
    buffers: i64,
    samples: i64,
) -> Option<Seq<char>> {
    if !is_width(red) {
        Some(width_mark(buffer, "GL_FRAMEBUFFER_ATTACHMENT_RED_SIZE"))
    } else if !is_width(green) {
        Some(width_mark(buffer, "GL_FRAMEBUFFER_ATTACHMENT_GREEN_SIZE"))
    } else if !is_width(blue) {
        Some(width_mark(buffer, "GL_FRAMEBUFFER_ATTACHMENT_BLUE_SIZE"))
    } else if !is_width(alpha) {
        Some(width_mark(buffer, "GL_FRAMEBUFFER_ATTACHMENT_ALPHA_SIZE"))
    } else if !is_width(buffers) {
        Some(failed_mark("GL_SAMPLE_BUFFERS"@))
    } else if !is_width(samples) {
        Some(failed_mark("GL_SAMPLES"@))
    } else {
        None
    }
}

/// Whether a remark says why the drawable could not be observed.
pub open spec fn is_reason(remark: Seq<char>) -> bool {
    "gl.surface-facts-unavailable="@.is_prefix_of(remark)
}

/// A drawable is observed only where nothing else is bound. A drawable that is
/// not observed leaves a reason and nothing but reasons; one that is observed
/// leaves remarks, and none of them is a reason.
pub proof fn missing_drawables_have_a_reason(seen: Inspection, o: Seq<QueryStep>)
    ensures
        seen.observe(o).1 is Unavailable || seen.observe(o).1 is Observed,
        seen.observe(o).2 != Set::<Seq<char>>::empty(),
        seen.observe(o).1 is Unavailable ==> forall|remark: Seq<char>| #[trigger]
            seen.observe(o).2.contains(remark) ==> is_reason(remark),
        seen.observe(o).1 is Observed ==> forall|remark: Seq<char>| #[trigger]
            seen.observe(o).2.contains(remark) ==> !is_reason(remark),
        seen.observe(o).1 is Observed ==> seen.integer(
            glow_const::DRAW_FRAMEBUFFER_BINDING,
            o,
        ).1 == Some(0i64),
{
    let (_, facts, texts) = seen.observe(o);
    let (m1, binding) = seen.integer(glow_const::DRAW_FRAMEBUFFER_BINDING, o);
    reasons_start_alike();
    if binding == Some(0i64) {
        let (m2, buffer, remarks) = m1.color_buffer(o);
        match buffer {
            None => {
                let none = "gl.surface-facts-unavailable=no-color-attachment"@;
                assert(remarks.contains(none) || remarks.contains(
                    refused_mark(ColorBuffer::BackLeft),
                ) || remarks.contains(refused_mark(ColorBuffer::FrontLeft)));
            },
            Some(buffer) => {
                remarks_on_a_buffer(m2, buffer, o);
            },
        }
    } else {
        assert(texts.contains("gl.surface-facts-unavailable=unqueried"@) || texts.contains(
            "gl.surface-facts-unavailable=draw-framebuffer-bound"@,
        ));
    }
}

proof fn reasons_start_alike()
    ensures
        is_reason("gl.surface-facts-unavailable=unqueried"@),
        is_reason("gl.surface-facts-unavailable=draw-framebuffer-bound"@),
        is_reason("gl.surface-facts-unavailable=no-color-attachment"@),
        forall|what: Seq<char>| is_reason(#[trigger] failed_mark(what)),
{
    reveal_strlit("gl.surface-facts-unavailable=");
    reveal_strlit("gl.surface-facts-unavailable=unqueried");
    reveal_strlit("gl.surface-facts-unavailable=draw-framebuffer-bound");
    reveal_strlit("gl.surface-facts-unavailable=no-color-attachment");
    reveal_strlit("gl.surface-facts-unavailable=query-failed:");
    let start = "gl.surface-facts-unavailable="@;
    assert forall|what: Seq<char>| is_reason(#[trigger] failed_mark(what)) by {
        assert(start =~= failed_mark(what).subrange(0, start.len() as int));
    }
    assert(start =~= "gl.surface-facts-unavailable=unqueried"@.subrange(0, start.len() as int));
    assert(start =~= "gl.surface-facts-unavailable=draw-framebuffer-bound"@.subrange(
        0,
        start.len() as int,
    ));
    assert(start =~= "gl.surface-facts-unavailable=no-color-attachment"@.subrange(
        0,
        start.len() as int,
    ));
}

/// A remark whose twelfth letter is another than that of a reason is none.
proof fn other_remarks_are_no_reasons(remark: Seq<char>)
    requires
        remark.len() > 11 ==> remark[11] != 'f',
    ensures
        !is_reason(remark),
{
    reveal_strlit("gl.surface-facts-unavailable=");
    let start = "gl.surface-facts-unavailable="@;
    if is_reason(remark) {
        assert(start[11] == remark.subrange(0, start.len() as int)[11]);
    }
}

proof fn attachments_are_no_reasons(
    seen: Inspection,
    key: &'static str,
    attachment: u32,
    size: u32,
    o: Seq<QueryStep>,
)
    requires
        key@.len() > 0,
        key@[0] != 'f',
    ensures
        !is_reason(seen.optional_attachment(key, attachment, size, o).1),
{
    reveal_strlit("gl.surface-");
    let remark = seen.optional_attachment(key, attachment, size, o).1;
    assert(remark[11] == key@[0]);
    other_remarks_are_no_reasons(remark);
}

proof fn remarks_on_a_buffer(seen: Inspection, buffer: ColorBuffer, o: Seq<QueryStep>)
    ensures
        ({
            let (_, facts, texts) = seen.observe_buffer(buffer, o);
            &&& facts is Unavailable || facts is Observed
            &&& texts != Set::<Seq<char>>::empty()
            &&& facts is Unavailable ==> forall|remark: Seq<char>| #[trigger]
                texts.contains(remark) ==> is_reason(remark)
            &&& facts is Observed ==> forall|remark: Seq<char>| #[trigger]
                texts.contains(remark) ==> !is_reason(remark)
        }),
{
    let (m, facts, texts) = seen.observe_buffer(buffer, o);
    reasons_start_alike();
    if facts is Observed {
        assert(texts.contains("gl.surface-srgb=unavailable"@));
        reveal_strlit("depth");
        reveal_strlit("stencil");
        reveal_strlit("gl.surface-color-buffer=");
        reveal_strlit("gl.surface-color-bits=");
        reveal_strlit("gl.surface-sample-buffers=");
        reveal_strlit("gl.surface-samples=");
        reveal_strlit("gl.surface-srgb=unavailable");
        assert forall|s: Inspection, attachment: u32, size: u32|
            #![trigger s.optional_attachment("depth", attachment, size, o)]
            !is_reason(s.optional_attachment("depth", attachment, size, o).1) by {
            attachments_are_no_reasons(s, "depth", attachment, size, o);
        }
        assert forall|s: Inspection, attachment: u32, size: u32|
            #![trigger s.optional_attachment("stencil", attachment, size, o)]
            !is_reason(s.optional_attachment("stencil", attachment, size, o).1) by {
            attachments_are_no_reasons(s, "stencil", attachment, size, o);
        }
        assert forall|remark: Seq<char>| #[trigger] texts.contains(remark) implies !is_reason(
            remark,
        ) by {
            if remark.len() <= 11 || remark[11] != 'f' {
                other_remarks_are_no_reasons(remark);
            }
        }
    } else {
        assert(texts.contains(width_mark(buffer, "GL_FRAMEBUFFER_ATTACHMENT_RED_SIZE"))
            || texts.contains(width_mark(buffer, "GL_FRAMEBUFFER_ATTACHMENT_GREEN_SIZE"))
            || texts.contains(width_mark(buffer, "GL_FRAMEBUFFER_ATTACHMENT_BLUE_SIZE"))
            || texts.contains(width_mark(buffer, "GL_FRAMEBUFFER_ATTACHMENT_ALPHA_SIZE"))
            || texts.contains(failed_mark("GL_SAMPLE_BUFFERS"@)) || texts.contains(
            failed_mark("GL_SAMPLES"@),
        ));
    }
}

fn joined(first: &str, second: &str, third: &str) -> (result: String)
    ensures
        result@ == first@ + second@ + third@,
{
    let mut result = first.to_owned();
    result.append(second);
    result.append(third);
    result
}

fn failed(what: &str) -> (result: String)
    ensures
        result@ == failed_mark(what@),
{
    let mut result = "gl.surface-facts-unavailable=query-failed:".to_owned();
    result.append(what);
    result
}

fn failed_width(buffer: ColorBuffer, name: &'static str) -> (result: String)
    ensures
        result@ == width_mark(buffer, name),
{
    let what = joined(buffer.name(), ":", name);
    failed(what.as_str())
}

fn refused(buffer: ColorBuffer) -> (result: String)
    ensures
        result@ == refused_mark(buffer),
{
    let mut what = buffer.name().to_owned();
    what.append(":GL_FRAMEBUFFER_ATTACHMENT_OBJECT_TYPE");
    failed(what.as_str())
}

fn counted(what: &str, n: u32) -> (result: String)
    ensures
        result@ == what@ + text::decimal(n as nat),
{
    let mut result = what.to_owned();
    push_decimal(&mut result, n as u64);
    result
}

fn narrow(value: i64) -> (result: Option<u32>)
    ensures
        match result {
            Some(width) => is_width(value) && width == value,
            None => !is_width(value),
        },
{
    if 0 <= value && value <= 0xffff_ffff {
        Some(value as u32)
    } else {
        None
    }
}

/// The color buffer of the drawable. Where there is none, the reason is noted.
pub fn color_buffer<Q: NativeGlQuery, P: NativeGlProbes>(
    link: &mut QueryLink<Q, P>,
    facts: &mut TextSet,
) -> (result: Option<ColorBuffer>)
    ensures
        query::grows(old(link)@.log, final(link)@.log),
        forall|o: Seq<QueryStep>|
            query::grows(final(link)@.log, o) ==> {
                let (after, buffer, remarks) = #[trigger] old(link)@.color_buffer(o);
                &&& after == final(link)@
                &&& buffer == result
                &&& final(facts)@ == old(facts)@ + remarks
            },
{
    let ghost start = facts@;
    let back = link.drawable_attachment(
        glow_const::BACK_LEFT,
        glow_const::FRAMEBUFFER_ATTACHMENT_OBJECT_TYPE,
    );
    if let Some(kind) = back {
        if kind != 0 {
            assert(facts@ =~= start + Set::<Seq<char>>::empty());
            return Some(ColorBuffer::BackLeft);
        }
    }
    let front = link.drawable_attachment(
        glow_const::FRONT_LEFT,
        glow_const::FRAMEBUFFER_ATTACHMENT_OBJECT_TYPE,
    );
    if let Some(kind) = front {
        if kind != 0 {
            assert(facts@ =~= start + Set::<Seq<char>>::empty());
            return Some(ColorBuffer::FrontLeft);
        }
    }
    if back.is_some() && front.is_some() {
        facts.insert("gl.surface-facts-unavailable=no-color-attachment".to_owned());
        assert(facts@ =~= start + set!["gl.surface-facts-unavailable=no-color-attachment"@]);
    } else {
        if back.is_none() {
            facts.insert(refused(ColorBuffer::BackLeft));
        }
        if front.is_none() {
            facts.insert(refused(ColorBuffer::FrontLeft));
        }
        assert(facts@ =~= start + with_if(
            with_if(Set::empty(), back is None, refused_mark(ColorBuffer::BackLeft)),
            front is None,
            refused_mark(ColorBuffer::FrontLeft),
        ));
    }
    None
}

/// Notes the width of an attachment that the drawable may lack, or which way
/// there is none: the attachment is not there, the driver would not say, or it
/// said what cannot be a width.
pub fn record_optional_attachment<Q: NativeGlQuery, P: NativeGlProbes>(
    link: &mut QueryLink<Q, P>,
    facts: &mut TextSet,
    key: &'static str,
    attachment: u32,
    size: u32,
)
    ensures
        query::grows(old(link)@.log, final(link)@.log),
        forall|o: Seq<QueryStep>|
            query::grows(final(link)@.log, o) ==> {
                let (after, remark) = #[trigger] old(link)@.optional_attachment(
                    key,
                    attachment,
                    size,
                    o,
                );
                &&& after == final(link)@
                &&& final(facts)@ == old(facts)@.insert(remark)
            },
{
    let kind = link.drawable_attachment(
        attachment,
        glow_const::FRAMEBUFFER_ATTACHMENT_OBJECT_TYPE,
    );
    let kind = match kind {
        None => {
            facts.insert(joined("gl.surface-", key, "-attachment=unqueried"));
            return;
        },
        Some(kind) => kind,
    };
    if kind == 0 {
        facts.insert(joined("gl.surface-", key, "-attachment=none"));
        return;
    }
    match link.drawable_attachment(attachment, size) {
        None => {
            facts.insert(joined("gl.surface-", key, "-attachment=unqueried"));
        },
        Some(value) => match narrow(value) {
            Some(width) => {
                let what = joined("gl.surface-", key, "-bits=");
                facts.insert(counted(what.as_str(), width));
            },
            None => {
                facts.insert(joined("gl.surface-", key, "-attachment=invalid"));
            },
        },
    }
}

fn note_unanswered(facts: &mut TextSet, missing: bool, mark: String)
    ensures
        final(facts)@ == with_if(old(facts)@, missing, mark@),
{
    if missing {
        facts.insert(mark);
    }
}

fn color_bits_text(red: u32, green: u32, blue: u32, alpha: u32) -> (result: String)
    ensures
        result@ == "gl.surface-color-bits="@ + text::decimal(red as nat) + ","@ + text::decimal(
            green as nat,
        ) + ","@ + text::decimal(blue as nat) + ","@ + text::decimal(alpha as nat),
{
    let mut result = "gl.surface-color-bits=".to_owned();
    push_decimal(&mut result, red as u64);
    result.append(",");
    push_decimal(&mut result, green as u64);
    result.append(",");
    push_decimal(&mut result, blue as u64);
    result.append(",");
    push_decimal(&mut result, alpha as u64);
    result
}

fn observe_buffer<Q: NativeGlQuery, P: NativeGlProbes>(
    link: &mut QueryLink<Q, P>,
    buffer: ColorBuffer,
) -> (result: (GlSurfaceFacts, TextSet))
    ensures
        query::grows(old(link)@.log, final(link)@.log),
        forall|o: Seq<QueryStep>|
            query::grows(final(link)@.log, o) ==> #[trigger] old(link)@.observe_buffer(buffer, o)
                == (final(link)@, result.0, result.1@),
{
    let at = buffer.token();
    let mut facts = TextSet::new();
    let red = link.drawable_attachment(at, glow_const::FRAMEBUFFER_ATTACHMENT_RED_SIZE);
    let green = link.drawable_attachment(at, glow_const::FRAMEBUFFER_ATTACHMENT_GREEN_SIZE);
    let blue = link.drawable_attachment(at, glow_const::FRAMEBUFFER_ATTACHMENT_BLUE_SIZE);
    let alpha = link.drawable_attachment(at, glow_const::FRAMEBUFFER_ATTACHMENT_ALPHA_SIZE);
    let buffers = link.integer(glow_const::SAMPLE_BUFFERS);
    let samples = link.integer(glow_const::SAMPLES);
    let (red_bits, green_bits, blue_bits, alpha_bits, sample_buffers, sample_count) = match (
        red,
        green,
        blue,
        alpha,
        buffers,
        samples,
    ) {
        (Some(r), Some(g), Some(b), Some(a), Some(n), Some(s)) => (r, g, b, a, n, s),
        _ => {
            note_unanswered(
                &mut facts,
                red.is_none(),
                failed_width(buffer, "GL_FRAMEBUFFER_ATTACHMENT_RED_SIZE"),
            );
            note_unanswered(
                &mut facts,
                green.is_none(),
                failed_width(buffer, "GL_FRAMEBUFFER_ATTACHMENT_GREEN_SIZE"),
            );
            note_unanswered(
                &mut facts,
                blue.is_none(),
                failed_width(buffer, "GL_FRAMEBUFFER_ATTACHMENT_BLUE_SIZE"),
            );
            note_unanswered(
                &mut facts,
                alpha.is_none(),
                failed_width(buffer, "GL_FRAMEBUFFER_ATTACHMENT_ALPHA_SIZE"),
            );
            note_unanswered(&mut facts, buffers.is_none(), failed("GL_SAMPLE_BUFFERS"));
            note_unanswered(&mut facts, samples.is_none(), failed("GL_SAMPLES"));
            return (GlSurfaceFacts::Unavailable, facts);
        },
    };
    let (red_width, green_width, blue_width, alpha_width, buffer_count, samples_each) = match (
        narrow(red_bits),
        narrow(green_bits),
        narrow(blue_bits),
        narrow(alpha_bits),
        narrow(sample_buffers),
        narrow(sample_count),
    ) {
        (Some(r), Some(g), Some(b), Some(a), Some(n), Some(s)) => (r, g, b, a, n, s),
        (r, g, b, a, n, s) => {
            let mark = if r.is_none() {
                failed_width(buffer, "GL_FRAMEBUFFER_ATTACHMENT_RED_SIZE")
            } else if g.is_none() {
                failed_width(buffer, "GL_FRAMEBUFFER_ATTACHMENT_GREEN_SIZE")
            } else if b.is_none() {
                failed_width(buffer, "GL_FRAMEBUFFER_ATTACHMENT_BLUE_SIZE")
            } else if a.is_none() {
                failed_width(buffer, "GL_FRAMEBUFFER_ATTACHMENT_ALPHA_SIZE")
            } else if n.is_none() {
                failed("GL_SAMPLE_BUFFERS")
            } else {
                failed("GL_SAMPLES")
            };
            let ghost text = mark@;
            facts.insert(mark);
            assert(facts@ =~= set![text]);
            return (GlSurfaceFacts::Unavailable, facts);
        },
    };
    record_optional_attachment(
        link,
        &mut facts,
        "depth",
        glow_const::DEPTH,
        glow_const::FRAMEBUFFER_ATTACHMENT_DEPTH_SIZE,
    );
    record_optional_attachment(
        link,
        &mut facts,
        "stencil",
        glow_const::STENCIL,
        glow_const::FRAMEBUFFER_ATTACHMENT_STENCIL_SIZE,
    );
    let mut named = "gl.surface-color-buffer=".to_owned();
    named.append(buffer.name());
    facts.insert(named);
    facts.insert(color_bits_text(red_width, green_width, blue_width, alpha_width));
    facts.insert(counted("gl.surface-sample-buffers=", buffer_count));
    facts.insert(counted("gl.surface-samples=", samples_each));
    facts.insert("gl.surface-srgb=unavailable".to_owned());
    (
        GlSurfaceFacts::Observed {
            color_bits: (red_width, green_width, blue_width, alpha_width),
        },
        facts,
    )
}

/// The drawable, and the remarks on it. Both come from the same answers.
pub fn observe<Q: NativeGlQuery, P: NativeGlProbes>(link: &mut QueryLink<Q, P>) -> (result: (
    GlSurfaceFacts,
    TextSet,
))
    ensures
        query::grows(old(link)@.log, final(link)@.log),
        forall|o: Seq<QueryStep>|
            query::grows(final(link)@.log, o) ==> #[trigger] old(link)@.observe(o) == (
                final(link)@,
                result.0,
                result.1@,
            ),
{
    let mut facts = TextSet::new();
    let binding = match link.integer(glow_const::DRAW_FRAMEBUFFER_BINDING) {
        Some(binding) => binding,
        None => {
            facts.insert("gl.surface-facts-unavailable=unqueried".to_owned());
            assert(facts@ =~= set!["gl.surface-facts-unavailable=unqueried"@]);
            return (GlSurfaceFacts::Unavailable, facts);
        },
    };
    if binding != 0 {
        facts.insert("gl.surface-facts-unavailable=draw-framebuffer-bound".to_owned());
        assert(facts@ =~= set!["gl.surface-facts-unavailable=draw-framebuffer-bound"@]);
        return (GlSurfaceFacts::Unavailable, facts);
    }
    let ghost middle = link@;
    match color_buffer(link, &mut facts) {
        Some(buffer) => observe_buffer(link, buffer),
        None => {
            proof {
                let remarks = middle.color_buffer(link@.log).2;
                assert(Set::<Seq<char>>::empty() + remarks =~= remarks);
                assert forall|o: Seq<QueryStep>| query::grows(link@.log, o) implies facts@
                    == #[trigger] middle.color_buffer(o).2 by {
                    let each = middle.color_buffer(o).2;
                    assert(Set::<Seq<char>>::empty() + each =~= each);
                }
            }
            (GlSurfaceFacts::Unavailable, facts)
        },
    }
}

} // verus!
