//! The painting settings a tool configuration starts from: the canvas, and the
//! blend law, mask and pattern of the brush.
use vstd::prelude::*;
use crate::geometry::UPoint;
use crate::mix_methods::MixMethod;
use crate::patterns::{PatternGeneratingFunc, SolidColor};
use crate::pressure_mask::{MaskGeneratingFunc, UniformMask, OPACITY_ONE};
use crate::raster::{in_dims, pixels_cover_dims, rgba_dims, rgba_pixels, Raster};

verus! {

pub const RED: [u8; 4] = [255, 0, 0, 255];

pub const WHITE: [u8; 4] = [255, 255, 255, 255];

/// The brush settings of the tool bar.
pub struct ToolsConfig {
    /// The color that marks the selected tool, and that the "dot" pattern paints.
    pub selecting_color: [u8; 4],
    pub deselecting_color: [u8; 4],
    pub mix_method: MixMethod,
    pub pressure_mask: MaskGeneratingFunc<UniformMask>,
    pub pattern: PatternGeneratingFunc<SolidColor>,
}

/// The canvas and brush settings of the application.
pub struct PaintConfig {
    pub default_canvas_size: UPoint,
    pub default_clear_color: [u8; 4],
    pub tools_config: ToolsConfig,
}

impl Default for PaintConfig {
    /// A white 320 by 320 canvas; a brush that overwrites with the selecting color, red.
    fn default() -> (r: PaintConfig)
        ensures
            r.default_canvas_size == (UPoint { x: 320, y: 320 }),
            r.default_clear_color == WHITE,
            r.tools_config.selecting_color == RED,
            r.tools_config.deselecting_color == WHITE,
            r.tools_config.mix_method == MixMethod::Normal,
            r.tools_config.pressure_mask.name@ == "overwrite"@,
            r.tools_config.pressure_mask.fun == (UniformMask { opacity: OPACITY_ONE }),
            r.tools_config.pattern.name@ == "dot"@,
            r.tools_config.pattern.fun.color == RED,
    {
        PaintConfig {
            default_canvas_size: UPoint { x: 320, y: 320 },
            default_clear_color: WHITE,
            tools_config: ToolsConfig {
                selecting_color: RED,
                deselecting_color: WHITE,
                mix_method: MixMethod::Normal,
                pressure_mask: MaskGeneratingFunc {
                    name: "overwrite".to_owned(),
                    fun: UniformMask { opacity: OPACITY_ONE },
                },
                pattern: PatternGeneratingFunc {
                    name: "dot".to_owned(),
                    fun: SolidColor { color: RED },
                },
            },
        }
    }
}

/// A canvas of the configured size, cleared to the configured color.
pub fn make_canvas_image_by_config(config: &PaintConfig) -> (r: Raster)
    requires
        4 * config.default_canvas_size.x * config.default_canvas_size.y <= isize::MAX,
    ensures
        rgba_dims(r) == (config.default_canvas_size.x, config.default_canvas_size.y),
        pixels_cover_dims(r),
        forall|x: u32, y: u32| #[trigger]
            in_dims(rgba_dims(r), x, y) ==> rgba_pixels(r)[(x, y)] == config.default_clear_color,
{
    Raster::filled(
        config.default_canvas_size.x,
        config.default_canvas_size.y,
        config.default_clear_color,
    )
}

} // verus!
