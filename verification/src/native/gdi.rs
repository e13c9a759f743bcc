//! The pixel format of a window that is drawn to by OpenGL on Windows.

use vstd::prelude::*;

verus! {

pub const PFD_DOUBLEBUFFER: u32 = 0x0000_0001;

pub const PFD_DRAW_TO_WINDOW: u32 = 0x0000_0004;

pub const PFD_SUPPORT_OPENGL: u32 = 0x0000_0020;

pub const PFD_TYPE_RGBA: u8 = 0;

pub const PFD_MAIN_PLANE: i8 = 0;

/// The bytes of a description in the layout of C.
pub const DESCRIPTOR_SIZE: u16 = 40;

/// The description of a pixel format.
#[derive(Clone, Copy, Debug, PartialEq, Eq, Structural)]
pub struct PixelFormatDescriptor {
    pub size: u16,
    pub version: u16,
    pub flags: u32,
    pub pixel_type: u8,
    pub color_bits: u8,
    pub red_bits: u8,
    pub red_shift: u8,
    pub green_bits: u8,
    pub green_shift: u8,
    pub blue_bits: u8,
    pub blue_shift: u8,
    pub alpha_bits: u8,
    pub alpha_shift: u8,
    pub accum_bits: u8,
    pub accum_red_bits: u8,
    pub accum_green_bits: u8,
    pub accum_blue_bits: u8,
    pub accum_alpha_bits: u8,
    pub depth_bits: u8,
    pub stencil_bits: u8,
    pub aux_buffers: u8,
    pub layer_type: i8,
    pub reserved: u8,
    pub layer_mask: u32,
    pub visible_mask: u32,
    pub damage_mask: u32,
}

/// The format of a window with two buffers, eight bits for each color and for
/// alpha, and planes for depth and stencil. What is not named is left to GDI.
pub open spec fn window_format() -> PixelFormatDescriptor {
    PixelFormatDescriptor {
        size: DESCRIPTOR_SIZE,
        version: 1,
        flags: PFD_DRAW_TO_WINDOW | PFD_SUPPORT_OPENGL | PFD_DOUBLEBUFFER,
        pixel_type: PFD_TYPE_RGBA,
        color_bits: 24,
        red_bits: 0,
        red_shift: 0,
        green_bits: 0,
        green_shift: 0,
        blue_bits: 0,
        blue_shift: 0,
        alpha_bits: 8,
        alpha_shift: 0,
        accum_bits: 0,
        accum_red_bits: 0,
        accum_green_bits: 0,
        accum_blue_bits: 0,
        accum_alpha_bits: 0,
        depth_bits: 24,
        stencil_bits: 8,
        aux_buffers: 0,
        layer_type: PFD_MAIN_PLANE,
        reserved: 0,
        layer_mask: 0,
        visible_mask: 0,
        damage_mask: 0,
    }
}

impl PixelFormatDescriptor {
    pub fn window_rgba() -> (result: Self)
        ensures
            result == window_format(),
    {
        PixelFormatDescriptor {
            size: DESCRIPTOR_SIZE,
            version: 1,
            flags: PFD_DRAW_TO_WINDOW | PFD_SUPPORT_OPENGL | PFD_DOUBLEBUFFER,
            pixel_type: PFD_TYPE_RGBA,
            color_bits: 24,
            red_bits: 0,
            red_shift: 0,
            green_bits: 0,
            green_shift: 0,
            blue_bits: 0,
            blue_shift: 0,
            alpha_bits: 8,
            alpha_shift: 0,
            accum_bits: 0,
            accum_red_bits: 0,
            accum_green_bits: 0,
            accum_blue_bits: 0,
            accum_alpha_bits: 0,
            depth_bits: 24,
            stencil_bits: 8,
            aux_buffers: 0,
            layer_type: PFD_MAIN_PLANE,
            reserved: 0,
            layer_mask: 0,
            visible_mask: 0,
            damage_mask: 0,
        }
    }
}

} // verus!
