use windows_sys::Win32::UI::WindowsAndMessaging::{
    WS_BORDER, WS_CAPTION, WS_CHILD, WS_CLIPSIBLINGS, WS_DLGFRAME, WS_EX_APPWINDOW,
    WS_EX_CLIENTEDGE, WS_EX_NOACTIVATE, WS_EX_STATICEDGE, WS_EX_TOOLWINDOW, WS_EX_WINDOWEDGE,
    WS_POPUP, WS_SYSMENU, WS_THICKFRAME, WS_VISIBLE,
};
use money_like_water::config::MeterAnchor;
use money_like_water::meter::{
    calculate_meter_child_position, calculate_meter_position, child_ex_style, child_style,
    wide_null, ScaledMargins,
    TaskbarRect, DEFAULT_METER_HEIGHT, DEFAULT_METER_WIDTH, TASKBAR_EDGE_CLAMP_MARGIN,
    TASKBAR_EDGE_VISIBLE_MARGIN, TASKBAR_MARGIN, TASKBAR_TOP_SAFE_MARGIN,
};

fn unscaled(offset_x: i32, offset_y: i32) -> ScaledMargins {
    ScaledMargins {
        taskbar: TASKBAR_MARGIN,
        top_safe: TASKBAR_TOP_SAFE_MARGIN,
        edge_visible: TASKBAR_EDGE_VISIBLE_MARGIN,
        edge_clamp: TASKBAR_EDGE_CLAMP_MARGIN,
        offset_x,
        offset_y,
    }
}

const BOTTOM_BAR: TaskbarRect = TaskbarRect { left: 0, top: 1040, right: 1920, bottom: 1080 };
const LEFT_BAR: TaskbarRect = TaskbarRect { left: 0, top: 0, right: 60, bottom: 1080 };

#[test]
fn meter_size_constants() {
    assert_eq!(DEFAULT_METER_WIDTH, 140);
    assert_eq!(DEFAULT_METER_HEIGHT, 48);
}

#[test]
fn horizontal_taskbar_anchors() {
    let w = 140;
    let h = 48;
    assert_eq!(calculate_meter_position(BOTTOM_BAR, MeterAnchor::Left, w, h, unscaled(0, 0)), (12, 1042));
    assert_eq!(calculate_meter_position(BOTTOM_BAR, MeterAnchor::Center, w, h, unscaled(0, 0)), (890, 1042));
    assert_eq!(calculate_meter_position(BOTTOM_BAR, MeterAnchor::Right, w, h, unscaled(0, 0)), (1768, 1042));
    assert_eq!(calculate_meter_position(BOTTOM_BAR, MeterAnchor::Right, w, h, unscaled(-120, 0)), (1648, 1042));
}

#[test]
fn meter_is_held_within_the_taskbar() {
    let w = 140;
    let h = 48;
    assert_eq!(calculate_meter_position(BOTTOM_BAR, MeterAnchor::Right, w, h, unscaled(500, 0)), (1778, 1042));
    assert_eq!(calculate_meter_position(BOTTOM_BAR, MeterAnchor::Left, w, h, unscaled(-500, 0)), (2, 1042));
    assert_eq!(calculate_meter_position(BOTTOM_BAR, MeterAnchor::Left, w, h, unscaled(0, -500)), (12, 998));
    assert_eq!(calculate_meter_position(BOTTOM_BAR, MeterAnchor::Left, w, h, unscaled(0, 500)), (12, 1074));
}

#[test]
fn vertical_taskbar_anchors() {
    let w = 40;
    let h = 48;
    assert_eq!(calculate_meter_position(LEFT_BAR, MeterAnchor::Left, w, h, unscaled(0, 0)), (10, 12));
    assert_eq!(calculate_meter_position(LEFT_BAR, MeterAnchor::Center, w, h, unscaled(0, 0)), (10, 516));
    assert_eq!(calculate_meter_position(LEFT_BAR, MeterAnchor::Right, w, h, unscaled(0, 0)), (10, 1020));
    assert_eq!(calculate_meter_position(LEFT_BAR, MeterAnchor::Right, w, h, unscaled(0, 100)), (10, 1030));
}

#[test]
fn meter_wider_than_taskbar_is_pinned_to_its_start() {
    let narrow = TaskbarRect { left: 0, top: 0, right: 101, bottom: 40 };
    let zero = ScaledMargins { taskbar: 0, top_safe: 0, edge_visible: 0, edge_clamp: 0, offset_x: 0, offset_y: 0 };
    assert_eq!(calculate_meter_position(narrow, MeterAnchor::Center, 140, 48, zero).0, 1);
    let wider = TaskbarRect { left: 0, top: 0, right: 141, bottom: 40 };
    assert_eq!(calculate_meter_position(wider, MeterAnchor::Center, 140, 48, zero).0, 1);
}

#[test]
fn child_position_is_relative_to_the_client_area() {
    let p = calculate_meter_child_position(BOTTOM_BAR, MeterAnchor::Left, 140, 48, unscaled(0, 0), (0, 1040));
    assert_eq!(p, (12, 2));
}

#[test]
fn class_names_are_nul_terminated_utf16() {
    let w = wide_null("Shell_TrayWnd");
    assert_eq!(w.len(), 14);
    assert_eq!(w[13], 0);
    assert_eq!(w[0], 'S' as u16);
    let expected: Vec<u16> = "a😀中".encode_utf16().chain(std::iter::once(0)).collect();
    assert_eq!(wide_null("a😀中"), expected);
}

#[test]
fn embedded_meter_styles() {
    for style in [0u32, 0xFFFF_FFFF, WS_POPUP | WS_CAPTION | 0x1, WS_THICKFRAME | WS_SYSMENU | 0x20] {
        let expected = (style & !WS_POPUP & !WS_CAPTION & !WS_THICKFRAME & !WS_BORDER & !WS_DLGFRAME & !WS_SYSMENU)
            | WS_CHILD | WS_VISIBLE | WS_CLIPSIBLINGS;
        assert_eq!(child_style(style), expected);
        let ex_expected = (style & !WS_EX_APPWINDOW & !WS_EX_CLIENTEDGE & !WS_EX_WINDOWEDGE & !WS_EX_STATICEDGE)
            | WS_EX_TOOLWINDOW | WS_EX_NOACTIVATE;
        assert_eq!(child_ex_style(style), ex_expected);
    }
}
