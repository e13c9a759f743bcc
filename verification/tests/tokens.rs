use fluxel_gl::native::{egl, gl_const, glow_const, workload};

#[test]
fn drawing_tokens_are_those_of_the_bindings() {
    for (ours, theirs) in [
        (gl_const::POINTS, glow::POINTS),
        (gl_const::LINES, glow::LINES),
        (gl_const::LINE_STRIP, glow::LINE_STRIP),
        (gl_const::TRIANGLES, glow::TRIANGLES),
        (gl_const::TRIANGLE_STRIP, glow::TRIANGLE_STRIP),
        (gl_const::NEVER, glow::NEVER),
        (gl_const::LESS, glow::LESS),
        (gl_const::EQUAL, glow::EQUAL),
        (gl_const::LEQUAL, glow::LEQUAL),
        (gl_const::GREATER, glow::GREATER),
        (gl_const::NOTEQUAL, glow::NOTEQUAL),
        (gl_const::GEQUAL, glow::GEQUAL),
        (gl_const::ALWAYS, glow::ALWAYS),
        (gl_const::KEEP, glow::KEEP),
        (gl_const::ZERO, glow::ZERO),
        (gl_const::REPLACE, glow::REPLACE),
        (gl_const::INCR, glow::INCR),
        (gl_const::DECR, glow::DECR),
        (gl_const::INVERT, glow::INVERT),
        (gl_const::INCR_WRAP, glow::INCR_WRAP),
        (gl_const::DECR_WRAP, glow::DECR_WRAP),
        (gl_const::ONE, glow::ONE),
        (gl_const::SRC_COLOR, glow::SRC_COLOR),
        (gl_const::ONE_MINUS_SRC_COLOR, glow::ONE_MINUS_SRC_COLOR),
        (gl_const::SRC_ALPHA, glow::SRC_ALPHA),
        (gl_const::ONE_MINUS_SRC_ALPHA, glow::ONE_MINUS_SRC_ALPHA),
        (gl_const::DST_COLOR, glow::DST_COLOR),
        (gl_const::ONE_MINUS_DST_COLOR, glow::ONE_MINUS_DST_COLOR),
        (gl_const::DST_ALPHA, glow::DST_ALPHA),
        (gl_const::ONE_MINUS_DST_ALPHA, glow::ONE_MINUS_DST_ALPHA),
        (gl_const::CONSTANT_COLOR, glow::CONSTANT_COLOR),
        (gl_const::ONE_MINUS_CONSTANT_COLOR, glow::ONE_MINUS_CONSTANT_COLOR),
        (gl_const::SRC_ALPHA_SATURATE, glow::SRC_ALPHA_SATURATE),
        (gl_const::FUNC_ADD, glow::FUNC_ADD),
        (gl_const::FUNC_SUBTRACT, glow::FUNC_SUBTRACT),
        (gl_const::FUNC_REVERSE_SUBTRACT, glow::FUNC_REVERSE_SUBTRACT),
        (gl_const::MIN, glow::MIN),
        (gl_const::MAX, glow::MAX),
        (gl_const::COLOR_BUFFER_BIT, glow::COLOR_BUFFER_BIT),
        (gl_const::DEPTH_BUFFER_BIT, glow::DEPTH_BUFFER_BIT),
        (gl_const::STENCIL_BUFFER_BIT, glow::STENCIL_BUFFER_BIT),
        (gl_const::NEAREST, glow::NEAREST),
        (gl_const::LINEAR, glow::LINEAR),
        (gl_const::COLOR_ATTACHMENT0, glow::COLOR_ATTACHMENT0),
        (gl_const::DEPTH_ATTACHMENT, glow::DEPTH_ATTACHMENT),
        (gl_const::STENCIL_ATTACHMENT, glow::STENCIL_ATTACHMENT),
        (gl_const::DEPTH_STENCIL_ATTACHMENT, glow::DEPTH_STENCIL_ATTACHMENT),
        (gl_const::FRAMEBUFFER, glow::FRAMEBUFFER),
        (gl_const::READ_FRAMEBUFFER, glow::READ_FRAMEBUFFER),
        (gl_const::DRAW_FRAMEBUFFER, glow::DRAW_FRAMEBUFFER),
        (gl_const::RENDERBUFFER, glow::RENDERBUFFER),
        (gl_const::FRAMEBUFFER_COMPLETE, glow::FRAMEBUFFER_COMPLETE),
        (gl_const::SCISSOR_TEST, glow::SCISSOR_TEST),
        (gl_const::CULL_FACE, glow::CULL_FACE),
        (gl_const::FRONT, glow::FRONT),
        (gl_const::BACK, glow::BACK),
        (gl_const::CW, glow::CW),
        (gl_const::CCW, glow::CCW),
        (gl_const::DEPTH_TEST, glow::DEPTH_TEST),
        (gl_const::STENCIL_TEST, glow::STENCIL_TEST),
        (gl_const::POLYGON_OFFSET_FILL, glow::POLYGON_OFFSET_FILL),
        (gl_const::BLEND, glow::BLEND),
        (gl_const::MULTISAMPLE, glow::MULTISAMPLE),
        (gl_const::SAMPLE_ALPHA_TO_COVERAGE, glow::SAMPLE_ALPHA_TO_COVERAGE),
        (gl_const::TEXTURE_2D, glow::TEXTURE_2D),
        (gl_const::TEXTURE_2D_MULTISAMPLE, glow::TEXTURE_2D_MULTISAMPLE),
        (gl_const::UNSIGNED_BYTE, glow::UNSIGNED_BYTE),
        (gl_const::BYTE, glow::BYTE),
        (gl_const::UNSIGNED_SHORT, glow::UNSIGNED_SHORT),
        (gl_const::SHORT, glow::SHORT),
        (gl_const::HALF_FLOAT, glow::HALF_FLOAT),
        (gl_const::FLOAT, glow::FLOAT),
        (gl_const::UNSIGNED_INT, glow::UNSIGNED_INT),
        (gl_const::INT, glow::INT),
        (gl_const::ARRAY_BUFFER, glow::ARRAY_BUFFER),
        (gl_const::ELEMENT_ARRAY_BUFFER, glow::ELEMENT_ARRAY_BUFFER),
        (gl_const::NO_ERROR, glow::NO_ERROR),
        (gl_const::OUT_OF_MEMORY, glow::OUT_OF_MEMORY),
        (gl_const::CONTEXT_LOST, glow::CONTEXT_LOST),
    ] {
        assert_eq!(ours, theirs);
    }
}

#[test]
fn question_tokens_are_those_of_the_bindings() {
    for (ours, theirs) in [
        (glow_const::VENDOR, glow::VENDOR),
        (glow_const::RENDERER, glow::RENDERER),
        (glow_const::VERSION, glow::VERSION),
        (glow_const::EXTENSIONS, glow::EXTENSIONS),
        (glow_const::SHADING_LANGUAGE_VERSION, glow::SHADING_LANGUAGE_VERSION),
        (glow_const::NUM_EXTENSIONS, glow::NUM_EXTENSIONS),
        (glow_const::MAX_TEXTURE_SIZE, glow::MAX_TEXTURE_SIZE),
        (glow_const::MAX_3D_TEXTURE_SIZE, glow::MAX_3D_TEXTURE_SIZE),
        (glow_const::MAX_ARRAY_TEXTURE_LAYERS, glow::MAX_ARRAY_TEXTURE_LAYERS),
        (glow_const::MAX_CUBE_MAP_TEXTURE_SIZE, glow::MAX_CUBE_MAP_TEXTURE_SIZE),
        (glow_const::MAX_RENDERBUFFER_SIZE, glow::MAX_RENDERBUFFER_SIZE),
        (glow_const::MAX_COLOR_ATTACHMENTS, glow::MAX_COLOR_ATTACHMENTS),
        (glow_const::MAX_DRAW_BUFFERS, glow::MAX_DRAW_BUFFERS),
        (glow_const::MAX_VERTEX_ATTRIBS, glow::MAX_VERTEX_ATTRIBS),
        (glow_const::MAX_VIEWPORT_DIMS, glow::MAX_VIEWPORT_DIMS),
        (glow_const::MAX_VIEWPORTS, glow::MAX_VIEWPORTS),
        (glow_const::MAX_VERTEX_TEXTURE_IMAGE_UNITS, glow::MAX_VERTEX_TEXTURE_IMAGE_UNITS),
        (glow_const::MAX_TEXTURE_IMAGE_UNITS, glow::MAX_TEXTURE_IMAGE_UNITS),
        (glow_const::MAX_COMBINED_TEXTURE_IMAGE_UNITS, glow::MAX_COMBINED_TEXTURE_IMAGE_UNITS),
        (glow_const::MAX_UNIFORM_BUFFER_BINDINGS, glow::MAX_UNIFORM_BUFFER_BINDINGS),
        (glow_const::MAX_UNIFORM_BLOCK_SIZE, glow::MAX_UNIFORM_BLOCK_SIZE),
        (glow_const::UNIFORM_BUFFER_OFFSET_ALIGNMENT, glow::UNIFORM_BUFFER_OFFSET_ALIGNMENT),
        (glow_const::MAX_VERTEX_UNIFORM_BLOCKS, glow::MAX_VERTEX_UNIFORM_BLOCKS),
        (glow_const::MAX_FRAGMENT_UNIFORM_BLOCKS, glow::MAX_FRAGMENT_UNIFORM_BLOCKS),
        (glow_const::MAX_COMPUTE_UNIFORM_BLOCKS, glow::MAX_COMPUTE_UNIFORM_BLOCKS),
        (glow_const::MAX_COMBINED_UNIFORM_BLOCKS, glow::MAX_COMBINED_UNIFORM_BLOCKS),
        (glow_const::MAX_SHADER_STORAGE_BUFFER_BINDINGS, glow::MAX_SHADER_STORAGE_BUFFER_BINDINGS),
        (glow_const::MAX_SHADER_STORAGE_BLOCK_SIZE, glow::MAX_SHADER_STORAGE_BLOCK_SIZE),
        (glow_const::SHADER_STORAGE_BUFFER_OFFSET_ALIGNMENT, glow::SHADER_STORAGE_BUFFER_OFFSET_ALIGNMENT),
        (glow_const::MAX_VERTEX_SHADER_STORAGE_BLOCKS, glow::MAX_VERTEX_SHADER_STORAGE_BLOCKS),
        (glow_const::MAX_FRAGMENT_SHADER_STORAGE_BLOCKS, glow::MAX_FRAGMENT_SHADER_STORAGE_BLOCKS),
        (glow_const::MAX_COMPUTE_SHADER_STORAGE_BLOCKS, glow::MAX_COMPUTE_SHADER_STORAGE_BLOCKS),
        (glow_const::MAX_COMBINED_SHADER_STORAGE_BLOCKS, glow::MAX_COMBINED_SHADER_STORAGE_BLOCKS),
        (glow_const::MAX_IMAGE_UNITS, glow::MAX_IMAGE_UNITS),
        (glow_const::MAX_COMBINED_IMAGE_UNIFORMS, glow::MAX_COMBINED_IMAGE_UNIFORMS),
        (glow_const::MAX_SAMPLES, glow::MAX_SAMPLES),
        (glow_const::MAX_COLOR_TEXTURE_SAMPLES, glow::MAX_COLOR_TEXTURE_SAMPLES),
        (glow_const::MAX_DEPTH_TEXTURE_SAMPLES, glow::MAX_DEPTH_TEXTURE_SAMPLES),
        (glow_const::MAX_INTEGER_SAMPLES, glow::MAX_INTEGER_SAMPLES),
        (glow_const::MAX_COMPUTE_WORK_GROUP_COUNT, glow::MAX_COMPUTE_WORK_GROUP_COUNT),
        (glow_const::MAX_COMPUTE_WORK_GROUP_SIZE, glow::MAX_COMPUTE_WORK_GROUP_SIZE),
        (glow_const::MAX_COMPUTE_WORK_GROUP_INVOCATIONS, glow::MAX_COMPUTE_WORK_GROUP_INVOCATIONS),
        (glow_const::MAX_TEXTURE_MAX_ANISOTROPY_EXT, glow::MAX_TEXTURE_MAX_ANISOTROPY_EXT),
        (glow_const::DRAW_FRAMEBUFFER_BINDING, glow::DRAW_FRAMEBUFFER_BINDING),
        (glow_const::DRAW_FRAMEBUFFER, glow::DRAW_FRAMEBUFFER),
        (glow_const::SAMPLE_BUFFERS, glow::SAMPLE_BUFFERS),
        (glow_const::SAMPLES, glow::SAMPLES),
        (glow_const::BACK_LEFT, glow::BACK_LEFT),
        (glow_const::FRONT_LEFT, glow::FRONT_LEFT),
        (glow_const::DEPTH, glow::DEPTH),
        (glow_const::STENCIL, glow::STENCIL),
        (glow_const::FRAMEBUFFER_ATTACHMENT_OBJECT_TYPE, glow::FRAMEBUFFER_ATTACHMENT_OBJECT_TYPE),
        (glow_const::FRAMEBUFFER_ATTACHMENT_RED_SIZE, glow::FRAMEBUFFER_ATTACHMENT_RED_SIZE),
        (glow_const::FRAMEBUFFER_ATTACHMENT_GREEN_SIZE, glow::FRAMEBUFFER_ATTACHMENT_GREEN_SIZE),
        (glow_const::FRAMEBUFFER_ATTACHMENT_BLUE_SIZE, glow::FRAMEBUFFER_ATTACHMENT_BLUE_SIZE),
        (glow_const::FRAMEBUFFER_ATTACHMENT_ALPHA_SIZE, glow::FRAMEBUFFER_ATTACHMENT_ALPHA_SIZE),
        (glow_const::FRAMEBUFFER_ATTACHMENT_DEPTH_SIZE, glow::FRAMEBUFFER_ATTACHMENT_DEPTH_SIZE),
        (glow_const::FRAMEBUFFER_ATTACHMENT_STENCIL_SIZE, glow::FRAMEBUFFER_ATTACHMENT_STENCIL_SIZE),
        (glow_const::CONTEXT_FLAGS, glow::CONTEXT_FLAGS),
        (glow_const::CONTEXT_PROFILE_MASK, glow::CONTEXT_PROFILE_MASK),
    ] {
        assert_eq!(ours, theirs);
    }
}

#[test]
fn shader_tokens_are_those_of_the_bindings() {
    assert_eq!(workload::VERTEX_SHADER, glow::VERTEX_SHADER);
    assert_eq!(workload::FRAGMENT_SHADER, glow::FRAGMENT_SHADER);
    assert_eq!(workload::RGBA, glow::RGBA);
    assert_eq!(workload::ONE_BITS, 1.0f32.to_bits());
}

#[test]
fn window_system_tokens_are_those_of_the_bindings() {
    assert_eq!(egl::OPENGL_ES_API, khronos_egl::OPENGL_ES_API);
    assert_eq!(egl::VENDOR, khronos_egl::VENDOR);
    assert_eq!(egl::VERSION, khronos_egl::VERSION);
    assert_eq!(egl::EXTENSIONS, khronos_egl::EXTENSIONS);
    assert_eq!(egl::SURFACE_TYPE, khronos_egl::SURFACE_TYPE);
    assert_eq!(egl::WINDOW_BIT, khronos_egl::WINDOW_BIT);
    assert_eq!(egl::PBUFFER_BIT, khronos_egl::PBUFFER_BIT);
    assert_eq!(egl::RENDERABLE_TYPE, khronos_egl::RENDERABLE_TYPE);
    assert_eq!(egl::OPENGL_ES3_BIT, khronos_egl::OPENGL_ES3_BIT);
    assert_eq!(egl::ALPHA_SIZE, khronos_egl::ALPHA_SIZE);
    assert_eq!(egl::BLUE_SIZE, khronos_egl::BLUE_SIZE);
    assert_eq!(egl::GREEN_SIZE, khronos_egl::GREEN_SIZE);
    assert_eq!(egl::RED_SIZE, khronos_egl::RED_SIZE);
    assert_eq!(egl::DEPTH_SIZE, khronos_egl::DEPTH_SIZE);
    assert_eq!(egl::STENCIL_SIZE, khronos_egl::STENCIL_SIZE);
    assert_eq!(egl::NONE, khronos_egl::NONE);
    assert_eq!(egl::HEIGHT, khronos_egl::HEIGHT);
    assert_eq!(egl::WIDTH, khronos_egl::WIDTH);
    assert_eq!(egl::CONTEXT_CLIENT_VERSION, khronos_egl::CONTEXT_CLIENT_VERSION);
    assert_eq!(egl::CONTEXT_MAJOR_VERSION_KHR, khronos_egl::CONTEXT_MAJOR_VERSION);
    assert_eq!(egl::CONTEXT_MINOR_VERSION_KHR, khronos_egl::CONTEXT_MINOR_VERSION);
}
