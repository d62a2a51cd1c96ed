use tuner::app::{App, Mode};
use tuner::audio::AudioDevice;
use tuner::meter::{MeterLayout, MARKER_WIDTHS, SHARP_LABEL_WIDTH};
use tuner::screen::{row_extents, Area, Extent, ROW_COUNT};
use tuner::view::{bracketed, ButtonStyle};

fn app_with(mode: Mode) -> App {
    let mut app = App::new(vec![AudioDevice { name: "Mic".to_string() }], 0, 1);
    app.set_mode(mode);
    app
}

#[test]
fn device_label_or_none() {
    let app = app_with(Mode::Free);
    assert_eq!(app.device_label(), "Mic");
    let app = App::new(vec![], 0, 1);
    assert_eq!(app.device_label(), "No device");
}

#[test]
fn bracketed_values() {
    assert_eq!(bracketed("YIN", true), "\u{25c0} YIN \u{25b6}");
    assert_eq!(bracketed("YIN", false), "YIN");
}

#[test]
fn string_button_styles() {
    let mut app = app_with(Mode::Mandolin);
    app.next_string();
    app.closest_string_index = Some(3);
    assert_eq!(
        app.string_buttons(true),
        vec![ButtonStyle::Plain, ButtonStyle::Selected, ButtonStyle::Plain, ButtonStyle::Closest]
    );
    assert_eq!(
        app.string_buttons(false),
        vec![ButtonStyle::Plain, ButtonStyle::Selected, ButtonStyle::Plain, ButtonStyle::Plain]
    );
    app.closest_string_index = Some(1);
    assert_eq!(app.string_buttons(true)[1], ButtonStyle::Selected);
    assert!(app_with(Mode::Free).string_buttons(true).is_empty());
}

#[test]
fn nearest_string_line() {
    let mut app = app_with(Mode::Guitar);
    assert_eq!(app.nearest_string_text(), None);
    app.closest_string_index = Some(0);
    assert_eq!(app.nearest_string_text().unwrap(), "Nearest string: E (E2)");
    app.closest_string_index = Some(4);
    assert_eq!(app.nearest_string_text().unwrap(), "Nearest string: B (B3)");
    app.closest_string_index = Some(6);
    assert_eq!(app.nearest_string_text(), None);
    let mut app = app_with(Mode::Free);
    app.closest_string_index = Some(0);
    assert_eq!(app.nearest_string_text(), None);
}

#[test]
fn target_notes() {
    let mut app = app_with(Mode::Mandolin);
    app.prev_string();
    let n = app.target_note().unwrap();
    assert_eq!(n.display_name(), "E5");
    assert_eq!(n.midi_number, 76);
    assert!(app_with(Mode::Free).target_note().is_none());
}

#[test]
fn meter_layout_80_columns() {
    assert!(MeterLayout::new(9, 3).is_none());
    assert!(MeterLayout::new(80, 2).is_none());
    let l = MeterLayout::new(80, 3).unwrap();
    assert_eq!(l.meter_width, 78);
    assert_eq!(l.center, 39);
    assert_eq!(l.flat_label_col, 1);
    assert_eq!(l.sharp_label_col, 70);
    assert_eq!(l.center_label_col, 40);
    assert_eq!(l.marker_cols, [1, 20, 40, 59, 76]);
    assert!(l.is_center(39));
    assert!(!l.is_center(40));
    assert_eq!(l.needle_col(0), 1);
    assert_eq!(l.needle_col(39), 40);
    assert_eq!(l.needle_col(500), 78);
    assert_eq!("sharp \u{266f}".len() as u16, SHARP_LABEL_WIDTH);
    let labels = ["-50", "-25", "0", "+25", "+50"];
    for (label, w) in labels.iter().zip(MARKER_WIDTHS.iter()) {
        assert_eq!(label.len() as u16, *w);
    }
}

#[test]
fn meter_layout_narrow() {
    let l = MeterLayout::new(10, 3).unwrap();
    assert_eq!(l.meter_width, 8);
    assert_eq!(l.center, 4);
    assert_eq!(l.sharp_label_col, 0);
    // markers are pulled left so that their labels end inside the area
    assert_eq!(l.marker_cols, [1, 3, 5, 7, 6]);
}

#[test]
fn screen_rows_and_border() {
    let app = app_with(Mode::Guitar);
    let area = Area { x: 0, y: 0, width: 60, height: 20 };
    let layout = app.screen_layout(area);
    assert_eq!(layout.inner, Area { x: 1, y: 1, width: 58, height: 18 });
    assert_eq!(layout.rows.areas().len(), ROW_COUNT);
    let heights: Vec<u16> = layout.rows.areas().iter().map(|r| r.height).collect();
    assert_eq!(heights, vec![1, 1, 1, 1, 1, 3, 1, 1, 1, 1, 6]);
    assert_eq!(layout.rows.areas()[0].y, 1);
    assert_eq!(layout.rows.areas()[5].y, 6);
    assert_eq!(layout.halves.areas().len(), 2);
    assert_eq!(layout.halves.areas()[0], Area { x: 1, y: 3, width: 29, height: 1 });
    assert_eq!(layout.halves.areas()[1], Area { x: 30, y: 3, width: 29, height: 1 });

    let free = app_with(Mode::Free).screen_layout(area);
    let heights: Vec<u16> = free.rows.areas().iter().map(|r| r.height).collect();
    assert_eq!(heights, vec![1, 1, 1, 0, 1, 3, 1, 1, 1, 1, 7]);

    let tiny = app_with(Mode::Free).screen_layout(Area { x: 5, y: 5, width: 1, height: 1 });
    assert_eq!(tiny.inner, Area { x: 6, y: 6, width: 0, height: 0 });

    // the extents handed to the solver, and the areas they were solved in
    assert_eq!(layout.rows.area(), layout.inner);
    assert_eq!(*layout.rows.extents(), row_extents(true));
    assert_eq!(*free.rows.extents(), row_extents(false));
    assert_eq!(layout.halves.area(), layout.rows.areas()[2]);
    assert_eq!(*layout.halves.extents(), vec![Extent::Percentage(50), Extent::Percentage(50)]);
    for r in layout.rows.areas() {
        assert!(r.y >= layout.inner.y && r.y + r.height <= layout.inner.y + layout.inner.height);
    }
}

#[test]
fn meter_stays_inside_area() {
    for width in 10u16..120 {
        let l = MeterLayout::new(width, 3).unwrap();
        assert!(l.sharp_label_col + SHARP_LABEL_WIDTH < width);
        assert!(1 + l.meter_width < width);
        assert!(l.center_label_col < width);
        for k in 0..5 {
            assert!(l.marker_cols[k] >= 1);
            assert!(l.marker_cols[k] + MARKER_WIDTHS[k] <= width);
        }
        assert!(l.needle_col(usize::MAX) < width);
    }
}

#[test]
fn button_texts() {
    assert_eq!(tuner::view::button_text("G"), " G ");
    assert_eq!(tuner::view::button_text(""), "  ");
}

#[test]
fn row_extents_per_mode() {
    let with = row_extents(true);
    assert_eq!(with.len(), ROW_COUNT);
    assert_eq!(with[3], Extent::Length(1));
    assert_eq!(with[5], Extent::Length(3));
    assert_eq!(with[10], Extent::Min(0));
    assert_eq!(row_extents(false)[3], Extent::Length(0));
}
