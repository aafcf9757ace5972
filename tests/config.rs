use brushwork::config::{make_canvas_image_by_config, PaintConfig, RED, WHITE};
use brushwork::geometry::UPoint;
use brushwork::mix_methods::MixMethod;
use brushwork::patterns::PatternFunction;
use brushwork::pressure_mask::{MaskFunction, OPACITY_ONE};

#[test]
fn default_config_overwrites_with_red() {
    let c = PaintConfig::default();
    assert_eq!(c.default_canvas_size, UPoint::new(320, 320));
    assert_eq!(c.default_clear_color, WHITE);
    let t = &c.tools_config;
    assert_eq!(t.selecting_color, RED);
    assert_eq!(t.deselecting_color, WHITE);
    assert_eq!(t.mix_method, MixMethod::Normal);
    assert_eq!(t.pressure_mask.name, "overwrite");
    assert_eq!(t.pressure_mask.opacity(5, 6, &UPoint::new(8, 8)), OPACITY_ONE);
    assert_eq!(t.pattern.name, "dot");
    assert_eq!(t.pattern.color_at(5, 6, &UPoint::new(8, 8)), Some(RED));
}

#[test]
fn canvas_from_config_is_cleared() {
    let c = PaintConfig::default();
    let canvas = make_canvas_image_by_config(&c);
    assert_eq!(canvas.size(), UPoint::new(320, 320));
    assert_eq!(canvas.pixel_at(0, 0), Some(WHITE));
    assert_eq!(canvas.pixel_at(319, 319), Some(WHITE));
    assert_eq!(canvas.pixel_at(320, 0), None);
}
