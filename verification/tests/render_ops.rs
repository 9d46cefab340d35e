//! Pages, layers, areas and the recorded command stream.

use genpdf::render::{Command, LayerData, Page, Renderer};
use genpdf::style::{Color, LineStyle};
use genpdf::{Margins, Mm, Position, Size};

fn page_200x100() -> Page {
    Page::new(Size::new(Mm(200_000), Mm(100_000)))
}

#[test]
fn fill_color_set_twice_records_one_command() {
    let mut ld = LayerData::new(String::from("Layer 1"));
    ld.set_fill_color(Some(Color::Rgb(10, 20, 30)));
    ld.set_fill_color(Some(Color::Rgb(10, 20, 30)));
    assert_eq!(ld.command_count(), 1);
    assert!(matches!(
        ld.commands()[0],
        Command::SetFillColor(Color::Rgb(10, 20, 30))
    ));
}

#[test]
fn fill_color_two_values_record_two_commands() {
    let mut ld = LayerData::new(String::from("Layer 1"));
    ld.set_fill_color(Some(Color::Rgb(10, 20, 30)));
    ld.set_fill_color(Some(Color::Rgb(1, 2, 3)));
    assert_eq!(ld.command_count(), 2);
}

#[test]
fn fill_color_none_means_black_and_is_cached() {
    let mut ld = LayerData::new(String::from("Layer 1"));
    // a fresh layer already caches black
    ld.set_fill_color(None);
    assert_eq!(ld.command_count(), 0);
    ld.set_fill_color(Some(Color::Rgb(0, 0, 0)));
    assert_eq!(ld.command_count(), 0);
    ld.set_fill_color(Some(Color::Greyscale(7)));
    ld.set_fill_color(None);
    assert_eq!(ld.command_count(), 2);
    assert!(matches!(
        ld.commands()[1],
        Command::SetFillColor(Color::Rgb(0, 0, 0))
    ));
}

#[test]
fn outline_state_setters_deduplicate() {
    let mut ld = LayerData::new(String::from("Layer 1"));
    ld.set_outline_color(Color::Rgb(5, 5, 5));
    ld.set_outline_color(Color::Rgb(5, 5, 5));
    ld.set_outline_thickness(Mm(500));
    ld.set_outline_thickness(Mm(500));
    assert_eq!(ld.command_count(), 2);
    ld.set_outline_color(Color::Rgb(6, 6, 6));
    ld.set_outline_thickness(Mm(600));
    assert_eq!(ld.command_count(), 4);
}

#[test]
fn update_helpers_report_changes() {
    let mut ld = LayerData::new(String::from("Layer 1"));
    assert!(!ld.update_fill_color(None));
    assert!(ld.update_fill_color(Some(Color::Greyscale(9))));
    assert!(!ld.update_outline_color(Color::Rgb(0, 0, 0)));
    assert!(ld.update_outline_thickness(Mm(100)));
    assert!(!ld.update_outline_thickness(Mm(100)));
    // the update helpers only touch the cache
    assert_eq!(ld.command_count(), 0);
}

#[test]
fn split_horizontally_equal_weights() {
    let page = Page::new(Size::new(Mm(40_000), Mm(100_000)));
    let area = page.first_layer().area();
    let parts = area.split_horizontally(&[2, 2, 2, 2]);
    assert_eq!(parts.len(), 4);
    let expected_offsets = [0i64, 10_000, 20_000, 30_000];
    for (i, part) in parts.iter().enumerate() {
        assert_eq!(part.size().width.0, 10_000);
        assert_eq!(part.size().height.0, 100_000);
        assert_eq!(part.origin().x.0, expected_offsets[i]);
        assert_eq!(part.origin().y.0, 0);
    }
}

#[test]
fn split_horizontally_proportional() {
    let page = page_200x100();
    let area = page.first_layer().area();
    let parts = area.split_horizontally(&[1, 2, 1]);
    assert_eq!(parts.len(), 3);
    assert_eq!(parts[0].size().width.0, 50_000);
    assert_eq!(parts[1].size().width.0, 100_000);
    assert_eq!(parts[2].size().width.0, 50_000);
    assert_eq!(parts[1].origin().x.0, 50_000);
    assert_eq!(parts[2].origin().x.0, 150_000);
}

#[test]
fn next_layer_creates_and_reuses_layers_in_order() {
    let mut page = page_200x100();
    assert_eq!(page.layer_count(), 1);
    assert_eq!(page.get_layer_data(0).unwrap().name(), "Layer 1");

    let a0 = page.first_layer().area();
    let a1 = a0.next_layer(&mut page);
    let a2 = a1.next_layer(&mut page);
    let a3 = a2.next_layer(&mut page);
    assert_eq!(page.layer_count(), 4);
    assert_eq!(page.get_layer_data(1).unwrap().name(), "Layer 2");
    assert_eq!(page.get_layer_data(2).unwrap().name(), "Layer 3");
    assert_eq!(page.get_layer_data(3).unwrap().name(), "Layer 4");
    assert_eq!(a1.layer().layer_idx, 1);
    assert_eq!(a2.layer().layer_idx, 2);
    assert_eq!(a3.layer().layer_idx, 3);

    // a subsequent call returns the existing next layer instead of
    // creating a new one
    let again = a0.next_layer(&mut page);
    assert_eq!(page.layer_count(), 4);
    assert_eq!(again.layer().layer_idx, 1);
}

#[test]
fn next_layer_names_use_decimal_digits() {
    let mut page = page_200x100();
    let mut area = page.first_layer().area();
    for _ in 0..10 {
        area = area.next_layer(&mut page);
    }
    assert_eq!(page.layer_count(), 11);
    assert_eq!(page.get_layer_data(10).unwrap().name(), "Layer 11");
}

#[test]
fn add_layer_keeps_custom_name() {
    let mut page = page_200x100();
    page.add_layer(String::from("Annotations"));
    assert_eq!(page.layer_count(), 2);
    assert_eq!(page.get_layer_data(1).unwrap().name(), "Annotations");
}

#[test]
fn draw_line_transforms_points_to_user_space() {
    let mut page = page_200x100();
    let area = page.first_layer().area();
    let style = LineStyle::new(Color::Rgb(255, 0, 0), Mm(1_000));
    let points = vec![
        Position::new(Mm(10_000), Mm(20_000)),
        Position::new(Mm(30_000), Mm(40_000)),
    ];
    area.draw_line(&mut page, points, style);

    let cmds = page.get_layer_data(0).unwrap().commands();
    assert_eq!(cmds.len(), 3);
    assert!(matches!(cmds[0], Command::SetOutlineThickness(Mm(1_000))));
    assert!(matches!(
        cmds[1],
        Command::SetOutlineColor(Color::Rgb(255, 0, 0))
    ));
    match &cmds[2] {
        Command::AddLineShape { points, is_closed } => {
            assert!(!is_closed);
            assert_eq!(points.len(), 2);
            assert_eq!(points[0], Position::new(Mm(10_000), Mm(80_000)));
            assert_eq!(points[1], Position::new(Mm(30_000), Mm(60_000)));
        }
        other => panic!("unexpected command: {:?}", other),
    }
}

#[test]
fn draw_line_twice_with_same_style_sets_state_once() {
    let mut page = page_200x100();
    let area = page.first_layer().area();
    let style = LineStyle::new(Color::Rgb(255, 0, 0), Mm(1_000));
    area.draw_line(&mut page, vec![Position::new(Mm(0), Mm(0))], style);
    area.draw_line(&mut page, vec![Position::new(Mm(1_000), Mm(1_000))], style);
    let cmds = page.get_layer_data(0).unwrap().commands();
    // thickness, color, line, line: the second call records no state
    assert_eq!(cmds.len(), 4);
    assert!(matches!(cmds[3], Command::AddLineShape { .. }));
}

#[test]
fn add_margins_and_offset_shrink_the_area() {
    let page = page_200x100();
    let mut area = page.first_layer().area();
    area.add_margins(Margins::new(Mm(10_000), Mm(5_000), Mm(20_000), Mm(15_000)));
    assert_eq!(area.origin(), Position::new(Mm(10_000), Mm(5_000)));
    assert_eq!(area.size(), Size::new(Mm(170_000), Mm(80_000)));

    area.add_offset(Position::new(Mm(1_000), Mm(2_000)));
    assert_eq!(area.origin(), Position::new(Mm(11_000), Mm(7_000)));
    assert_eq!(area.size(), Size::new(Mm(169_000), Mm(78_000)));

    area.set_width(Mm(50_000));
    area.set_height(Mm(60_000));
    assert_eq!(area.size(), Size::new(Mm(50_000), Mm(60_000)));
    area.set_size(Size::new(Mm(1), Mm(2)));
    assert_eq!(area.size(), Size::new(Mm(1), Mm(2)));
}

#[test]
fn renderer_manages_pages() {
    let mut renderer =
        Renderer::new(Size::new(Mm(210_000), Mm(297_000)), "Test Document").unwrap();
    assert_eq!(renderer.page_count(), 1);
    assert_eq!(renderer.title(), "Test Document");
    assert_eq!(
        renderer.first_page().size(),
        Size::new(Mm(210_000), Mm(297_000))
    );
    assert_eq!(renderer.first_page().layer_count(), 1);
    assert_eq!(
        renderer.first_page().get_layer_data(0).unwrap().name(),
        "Layer 1"
    );

    renderer.add_page(Size::new(Mm(100_000), Mm(100_000)));
    assert_eq!(renderer.page_count(), 2);
    assert_eq!(
        renderer.last_page().size(),
        Size::new(Mm(100_000), Mm(100_000))
    );
    assert!(renderer.get_page(1).is_some());
    assert!(renderer.get_page(2).is_none());
    assert!(renderer.get_page_mut(2).is_none());

    let page = renderer.get_page_mut(1).unwrap();
    page.add_layer(String::from("Extra"));
    assert_eq!(renderer.last_page().layer_count(), 2);
    assert_eq!(renderer.last_page_mut().layer_count(), 2);
    assert_eq!(renderer.first_page_mut().layer_count(), 1);
    assert!(renderer.conformance().is_none());
    assert!(renderer.creation_date().is_none());
    assert!(renderer.modification_date().is_none());
}

#[test]
fn get_layer_returns_handles_in_range() {
    let page = page_200x100();
    assert!(page.get_layer(0).is_some());
    assert!(page.get_layer(1).is_none());
    assert_eq!(page.first_layer().layer_idx, 0);
    assert_eq!(page.last_layer().layer_idx, 0);
}

#[test]
fn renderer_keeps_conformance_and_dates() {
    let renderer = Renderer::new(Size::new(Mm(210_000), Mm(297_000)), "Meta").unwrap();
    let renderer = renderer
        .with_conformance(printpdf::PdfConformance::X3_2002_PDF_1_3)
        .with_creation_date(printpdf::OffsetDateTime::from_unix_timestamp(0))
        .with_modification_date(printpdf::OffsetDateTime::from_unix_timestamp(0));
    assert!(renderer.conformance().is_some());
    assert!(renderer.creation_date().is_some());
    assert!(renderer.modification_date().is_some());
    assert_eq!(renderer.title(), "Meta");
    assert_eq!(renderer.page_count(), 1);
}

#[test]
fn default_values_match_the_documented_ones() {
    assert_eq!(genpdf::Mm::default(), Mm(0));
    assert_eq!(genpdf::Position::default(), Position::new(Mm(0), Mm(0)));
    assert_eq!(
        genpdf::Size::default(),
        Size::new(Mm(0), Mm(0))
    );
    assert_eq!(genpdf::Scale::default(), genpdf::Scale::new(1_000_000, 1_000_000));
    assert_eq!(genpdf::Rotation::default().millidegrees, 0);
    assert_eq!(genpdf::Alignment::default(), genpdf::Alignment::Left);
    assert_eq!(Mm::from_mm(25), Mm(25_000));
}

#[test]
fn layer_space_flips_into_user_space() {
    let page = page_200x100();
    let layer = page.first_layer();
    let mut area = layer.area();
    area.add_offset(Position::new(Mm(10_000), Mm(20_000)));
    let lp = genpdf::render::LayerPosition::from_area(&area, Position::new(Mm(1_000), Mm(2_000)));
    assert_eq!(lp.position(), Position::new(Mm(11_000), Mm(22_000)));
    let up = genpdf::render::UserSpacePosition::from_layer(&layer, lp);
    assert_eq!(up.position(), Position::new(Mm(11_000), Mm(78_000)));
}
