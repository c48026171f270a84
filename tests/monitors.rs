use motion_wallpaper::monitors::{
    monitor_bounds, monitor_desc, monitor_from_device, monitor_id, order_monitors,
};
use motion_wallpaper::text::decimal;
use motion_wallpaper::{MonitorDesc, RectDebug};

fn device(name: &str) -> Vec<u16> {
    let mut v: Vec<u16> = name.encode_utf16().collect();
    v.resize(32, 0);
    v
}

fn monitor(name: &str, x: i32, y: i32, w: i32, h: i32, primary: bool) -> MonitorDesc {
    monitor_desc(name.to_string(), x, y, x + w, y + h, if primary { 1 } else { 0 })
}

#[test]
fn monitor_identity_joins_name_position_and_primary_flag() {
    let m = monitor_desc("\\\\.\\DISPLAY1".to_string(), -1920, 0, 0, 1080, 1);
    assert_eq!(m.id, "\\\\.\\DISPLAY1:-1920:0:1");
    assert_eq!(m.width, 1920);
    assert_eq!(m.height, 1080);
    assert!(m.primary);
    let n = monitor_desc("B".to_string(), 5, 7, 10, 20, 0);
    assert_eq!(n.id, "B:5:7:0");
    assert!(!n.primary);
    assert_eq!(monitor_id(&"X".to_string(), i32::MIN, i32::MAX, true), "X:-2147483648:2147483647:1");
}

#[test]
fn inverted_bounds_give_empty_extent() {
    let m = monitor_desc("A".to_string(), 100, 100, 50, 40, 0);
    assert_eq!((m.width, m.height), (0, 0));
    let big = monitor_desc("A".to_string(), i32::MIN, 0, i32::MAX, 10, 0);
    assert_eq!(big.width, i32::MAX);
}

#[test]
fn device_name_stops_at_the_first_nul() {
    let m = monitor_from_device(&device("\\\\.\\DISPLAY2"), 1920, 0, 3200, 1024, 0);
    assert_eq!(m.name, "\\\\.\\DISPLAY2");
    assert_eq!(m.id, "\\\\.\\DISPLAY2:1920:0:0");
    let full: Vec<u16> = "ABC".encode_utf16().collect();
    assert_eq!(monitor_from_device(&full, 0, 0, 1, 1, 1).name, "ABC");
    assert_eq!(monitor_from_device(&[0, 65, 66], 0, 0, 1, 1, 1).name, "");
}

#[test]
fn invalid_utf16_is_replaced() {
    let m = monitor_from_device(&[0xD800, 0x41, 0], 0, 0, 1, 1, 0);
    assert_eq!(m.name, "\u{FFFD}A");
}

#[test]
fn decimal_text_of_integers() {
    assert_eq!(decimal(0), "0");
    assert_eq!(decimal(-7), "-7");
    assert_eq!(decimal(1234567890), "1234567890");
    assert_eq!(decimal(i64::MIN), "-9223372036854775808");
    assert_eq!(decimal(i64::MAX), "9223372036854775807");
}

#[test]
fn listing_puts_primary_first_then_left_to_right_then_top_to_bottom() {
    let list = vec![
        monitor("C", 1920, 0, 1280, 1024, false),
        monitor("A", 0, 0, 1920, 1080, true),
        monitor("D", -1280, 500, 1280, 1024, false),
        monitor("B", -1280, 0, 1280, 500, false),
    ];
    let ordered = order_monitors(list);
    let names: Vec<&str> = ordered.iter().map(|m| m.name.as_str()).collect();
    assert_eq!(names, vec!["A", "B", "D", "C"]);
}

#[test]
fn listing_of_nothing_is_empty() {
    assert!(order_monitors(Vec::new()).is_empty());
}

#[test]
fn selected_monitor_bounds() {
    let list = vec![monitor("A", 0, 0, 1920, 1080, true), monitor("B", 1920, 0, 1280, 1024, false)];
    let sel = list[1].id.clone();
    assert_eq!(monitor_bounds(&list, Some(&sel)), Some(RectDebug { x: 1920, y: 0, w: 1280, h: 1024 }));
}

#[test]
fn unknown_or_absent_selector_gives_virtual_bounds() {
    let list = vec![monitor("A", 0, 0, 1920, 1080, true), monitor("B", 1920, 0, 1280, 1024, false)];
    let union = Some(RectDebug { x: 0, y: 0, w: 3200, h: 1080 });
    assert_eq!(monitor_bounds(&list, None), union);
    assert_eq!(monitor_bounds(&list, Some(&"nope".to_string())), union);
    assert_eq!(monitor_bounds(&Vec::new(), Some(&"nope".to_string())), None);
}
