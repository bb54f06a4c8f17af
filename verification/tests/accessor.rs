use std::cell::Cell;
use win_syscolor::accessor::{brush_exists, fetch_if_present};
use win_syscolor::{get_sys_color, OnceBool, PresenceTable, SysColor, SysColorIndex};

fn all_indices() -> Vec<SysColorIndex> {
    vec![
        SysColorIndex::ThreeDDarkShadow,
        SysColorIndex::ActiveBorder,
        SysColorIndex::ActiveCaption,
        SysColorIndex::AppWorkspace,
        SysColorIndex::Background,
        SysColorIndex::ButtonFace,
        SysColorIndex::ButtonHighlight,
        SysColorIndex::ButtonShadow,
        SysColorIndex::ButtonText,
        SysColorIndex::CaptionText,
        SysColorIndex::GradientActiveCaption,
        SysColorIndex::GradientInactiveCaption,
        SysColorIndex::GrayText,
        SysColorIndex::Highlight,
        SysColorIndex::HighlightText,
        SysColorIndex::HotLight,
        SysColorIndex::InactiveBorder,
        SysColorIndex::InactiveCaption,
        SysColorIndex::InactiveCaptionText,
        SysColorIndex::InfoBackground,
        SysColorIndex::InfoText,
        SysColorIndex::Menu,
        SysColorIndex::MenuText,
        SysColorIndex::ScrollBar,
        SysColorIndex::Window,
        SysColorIndex::WindowFrame,
        SysColorIndex::WindowText,
    ]
}

#[test]
fn only_the_null_brush_is_no_brush() {
    assert!(!brush_exists(0));
    assert!(brush_exists(1));
    assert!(brush_exists(-1));
    assert!(brush_exists(0x0010_0072));
    assert!(brush_exists(isize::MAX));
    assert!(brush_exists(isize::MIN));
}

#[test]
fn fetch_if_present_fetches_a_present_color() {
    assert_eq!(fetch_if_present(true, 4, |_| 0x00CC_BBAA), Some(0x00CC_BBAA));
    assert_eq!(fetch_if_present(true, 4, |_| 0), Some(0));
}

#[test]
fn fetch_if_present_hands_the_index_on() {
    assert_eq!(fetch_if_present(true, 13, |index| index as u32 + 100), Some(113));
}

#[test]
fn fetch_if_present_leaves_an_absent_color_alone() {
    let found = fetch_if_present(false, 4, |_| panic!("an absent color is not fetched"));
    assert_eq!(found, None);
}

#[test]
fn present_color_is_probed_and_fetched() {
    let latch = OnceBool::new();
    let found = get_sys_color(5, &latch, |_| 0x0010_0072, |_| 0x00FF_FFFF);
    assert_eq!(found, Some(0x00FF_FFFF));
}

#[test]
fn black_is_a_color() {
    let latch = OnceBool::new();
    assert_eq!(get_sys_color(8, &latch, |_| 1, |_| 0), Some(0));
}

#[test]
fn absent_color_is_never_fetched() {
    let latch = OnceBool::new();
    for _ in 0..5 {
        let found = get_sys_color(25, &latch, |_| 0, |_| panic!("an absent color is not fetched"));
        assert_eq!(found, None);
    }
}

#[test]
fn probe_and_fetch_get_the_index_asked_for() {
    let latch = OnceBool::new();
    let probed = Cell::new(None);
    let fetched = Cell::new(None);
    let found = get_sys_color(
        17,
        &latch,
        |index| {
            probed.set(Some(index));
            1
        },
        |index| {
            fetched.set(Some(index));
            0x0080_8080
        },
    );
    assert_eq!(found, Some(0x0080_8080));
    assert_eq!(probed.get(), Some(17));
    assert_eq!(fetched.get(), Some(17));
}

#[test]
fn presence_is_probed_once_and_the_color_fetched_every_time() {
    let latch = OnceBool::new();
    let probes = Cell::new(0);
    let fetches = Cell::new(0u32);
    for call in 1..=4u32 {
        let found = get_sys_color(
            2,
            &latch,
            |_| {
                probes.set(probes.get() + 1);
                1
            },
            |_| {
                fetches.set(fetches.get() + 1);
                call * 0x0001_0101
            },
        );
        // The color is live: each call sees what the platform holds at that time.
        assert_eq!(found, Some(call * 0x0001_0101));
        assert_eq!(probes.get(), 1);
        assert_eq!(fetches.get(), call);
    }
}

#[test]
fn presence_outlives_a_change_of_the_probe() {
    let present = OnceBool::new();
    assert_eq!(get_sys_color(4, &present, |_| 1, |_| 7), Some(7));
    assert_eq!(get_sys_color(4, &present, |_| 0, |_| 8), Some(8));
    let absent = OnceBool::new();
    assert_eq!(get_sys_color(4, &absent, |_| 0, |_| 7), None);
    assert_eq!(get_sys_color(4, &absent, |_| 1, |_| 8), None);
}

#[test]
fn get_wraps_the_fetched_value() {
    let table = PresenceTable::new();
    let found = SysColor::get(SysColorIndex::ActiveCaption, &table, |_| 1, |_| 0x00CC_BBAA);
    assert_eq!(found, Some(SysColor::new(0x00CC_BBAA)));
    let color = found.unwrap();
    assert_eq!(color.raw(), 0x00CC_BBAA);
    assert_eq!((color.red(), color.green(), color.blue()), (0xAA, 0xBB, 0xCC));
    assert_eq!(color.to_hex_string(), "#AABBCC");
}

#[test]
fn get_reports_an_absent_color() {
    let table = PresenceTable::new();
    let found = SysColor::get(
        SysColorIndex::GradientActiveCaption,
        &table,
        |_| 0,
        |_| panic!("an absent color is not fetched"),
    );
    assert_eq!(found, None);
}

#[test]
fn get_hands_the_native_index_to_the_platform() {
    let table = PresenceTable::new();
    for index in all_indices() {
        let probed = Cell::new(None);
        let fetched = Cell::new(None);
        let found = SysColor::get(
            index,
            &table,
            |native| {
                probed.set(Some(native));
                1
            },
            |native| {
                fetched.set(Some(native));
                native as u32
            },
        );
        assert_eq!(probed.get(), Some(index.native()));
        assert_eq!(fetched.get(), Some(index.native()));
        assert_eq!(found, Some(SysColor::new(index.native() as u32)));
    }
}

#[test]
fn get_for_menu_asks_for_native_index_4() {
    let table = PresenceTable::new();
    let found = SysColor::get(
        SysColorIndex::Menu,
        &table,
        |native| if native == 4 { 1 } else { 0 },
        |native| if native == 4 { 0x00F0_F0F0 } else { 0 },
    );
    assert_eq!(found, Some(SysColor::new(0x00F0_F0F0)));
}

#[test]
fn each_index_has_a_latch_of_its_own() {
    let table = PresenceTable::new();
    // Settle every second index as absent, the others as present.
    for (place, index) in all_indices().into_iter().enumerate() {
        let brush = if place % 2 == 0 { 0 } else { 1 };
        let found = SysColor::get(index, &table, |_| brush, |_| 9);
        assert_eq!(found.is_some(), place % 2 == 1);
    }
    // Each index kept its own answer, whatever the probe says now.
    for (place, index) in all_indices().into_iter().enumerate() {
        let brush = if place % 2 == 0 { 1 } else { 0 };
        let found = SysColor::get(index, &table, |_| brush, |_| 9);
        assert_eq!(found.is_some(), place % 2 == 1);
    }
}

#[test]
fn presence_is_the_same_on_a_second_call() {
    for brush in [0isize, 1] {
        let table = PresenceTable::new();
        for index in all_indices() {
            let first = SysColor::get(index, &table, |_| brush, |_| 1);
            let second = SysColor::get(index, &table, |_| brush, |_| 2);
            assert_eq!(first.is_some(), second.is_some());
            assert_eq!(first.is_some(), brush != 0);
        }
    }
}

#[test]
fn absent_index_stays_absent_on_every_call() {
    let table = PresenceTable::new();
    for index in all_indices() {
        for _ in 0..3 {
            let found =
                SysColor::get(index, &table, |_| 0, |_| panic!("an absent color is not fetched"));
            assert_eq!(found, None);
        }
    }
}

#[test]
fn tables_do_not_share_latches() {
    let first = PresenceTable::new();
    let second = PresenceTable::new();
    assert_eq!(SysColor::get(SysColorIndex::Window, &first, |_| 0, |_| 1), None);
    assert_eq!(
        SysColor::get(SysColorIndex::Window, &second, |_| 1, |_| 1),
        Some(SysColor::new(1))
    );
    assert_eq!(SysColor::get(SysColorIndex::Window, &first, |_| 1, |_| 1), None);
}

#[test]
fn call_that_loses_the_race_reports_the_winners_presence() {
    let table = PresenceTable::new();
    let outer = SysColor::get(
        SysColorIndex::Highlight,
        &table,
        |_| {
            let inner = SysColor::get(SysColorIndex::Highlight, &table, |_| 1, |_| 0x00D7_7800);
            assert_eq!(inner, Some(SysColor::new(0x00D7_7800)));
            0
        },
        |_| 0x00D7_7801,
    );
    assert_eq!(outer, Some(SysColor::new(0x00D7_7801)));
}
