use winapi_wrapper::error::WinApiError;
use winapi_wrapper::util::RGBA;
use winapi_wrapper::window::{win32_string, Level, WindowPos};

#[test]
fn rgba_packs_channels_high_to_low() {
    let (rgb, alpha): (u32, u8) = RGBA(0xff, 0xee, 0xdd, 255).into();
    assert_eq!(rgb, 0xffeedd);
    assert_eq!(alpha, 255);
}

#[test]
fn rgba_packs_distinct_bytes() {
    let (rgb, alpha): (u32, u8) = RGBA(1, 2, 3, 4).into();
    assert_eq!(rgb, 0x010203);
    assert_eq!(alpha, 4);
}

#[test]
fn rgba_packs_zero() {
    let (rgb, alpha): (u32, u8) = RGBA(0, 0, 0, 0).into();
    assert_eq!(rgb, 0);
    assert_eq!(alpha, 0);
}

#[test]
fn level_insert_after_codes() {
    assert_eq!(Level::TopMost.insert_after(), -1);
    assert_eq!(Level::Top.insert_after(), 0);
    assert_eq!(Level::Normal.insert_after(), -2);
    assert_eq!(Level::Bottom.insert_after(), 1);
}

#[test]
fn window_pos_from_rect_takes_differences() {
    let p = WindowPos::from_rect(50, 60, 550, 560);
    assert_eq!(p.x, 50);
    assert_eq!(p.y, 60);
    assert_eq!(p.cx, 500);
    assert_eq!(p.cy, 500);
}

#[test]
fn window_pos_from_rect_negative_corner() {
    let p = WindowPos::from_rect(-10, -20, 30, 20);
    assert_eq!(p.x, -10);
    assert_eq!(p.y, -20);
    assert_eq!(p.cx, 40);
    assert_eq!(p.cy, 40);
}

#[test]
fn win32_string_ascii_has_nul_terminator() {
    let v = win32_string("Heart Beat");
    let expected: Vec<u16> = "Heart Beat".encode_utf16().chain(std::iter::once(0)).collect();
    assert_eq!(v, expected);
    assert_eq!(v.last(), Some(&0u16));
}

#[test]
fn win32_string_empty_is_just_nul() {
    assert_eq!(win32_string(""), vec![0u16]);
}

#[test]
fn win32_string_basic_plane_char() {
    assert_eq!(win32_string("\u{e9}"), vec![0xe9u16, 0]);
}

#[test]
fn win32_string_surrogate_pair() {
    assert_eq!(win32_string("\u{10348}"), vec![0xd800u16, 0xdf48, 0]);
}

#[test]
fn message_for_simple_errors() {
    assert_eq!(
        WinApiError::FailedToGetWindowPos.message(),
        "Failed to get window position"
    );
    assert_eq!(
        WinApiError::FailedToSetExtendedWinStyle.message(),
        "Failed to set window style"
    );
    assert_eq!(WinApiError::CouldntSetBgColor.message(), "Failed to set Bg Color");
    assert_eq!(WinApiError::FailedToSetGWL_Style.message(), "failed to set GWL_Style");
}

#[test]
fn message_for_set_window_pos_failure() {
    let e = WinApiError::FailedToSetWindowPos(-3, 50, 500, 505, Level::TopMost);
    assert_eq!(
        e.message(),
        "Failed to write window pos (-3,50) with size 500x505 on level TopMost"
    );
}

#[test]
fn message_renders_extreme_coordinates() {
    let e = WinApiError::FailedToSetWindowPos(i32::MIN, i32::MAX, 0, 1, Level::Normal);
    assert_eq!(
        e.message(),
        "Failed to write window pos (-2147483648,2147483647) with size 0x1 on level Normal"
    );
}

#[test]
fn errors_compare_by_contents() {
    assert_eq!(
        WinApiError::FailedToSetWindowPos(1, 2, 3, 4, Level::Top),
        WinApiError::FailedToSetWindowPos(1, 2, 3, 4, Level::Top)
    );
    assert_ne!(
        WinApiError::FailedToSetWindowPos(1, 2, 3, 4, Level::Top),
        WinApiError::FailedToSetWindowPos(1, 2, 3, 4, Level::Bottom)
    );
    assert_ne!(WinApiError::FailedToGetWindowPos, WinApiError::CouldntSetBgColor);
}
