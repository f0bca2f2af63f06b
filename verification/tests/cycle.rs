//! Whole refresh cycles: the exact draw-operation sequence, the panel
//! command sequence, failure handling, the registry startup check, the
//! calendar conversion and the label formatting.

use weather_station::dashboard::{ColorId, Dashboard, DrawOp, FontId, Rotation};
use weather_station::date::{civil_from_unix, CivilDate};
use weather_station::fetch::parse_weather;
use weather_station::icons::{AssetId, IconEntry, IconRegistry};
use weather_station::panel::{apply_command, PanelCommand, PanelState};
use weather_station::textfmt::{deci_text, i64_text, u64_dec};
use weather_station::weather::{Failure, Main, Weather, WeatherData, Wind};

fn all_assets() -> Vec<AssetId> {
    vec![
        AssetId::Storm,
        AssetId::Rainy,
        AssetId::RainyHeavy,
        AssetId::WeatherMix,
        AssetId::Snowing,
        AssetId::Foggy,
        AssetId::Cyclone,
        AssetId::Sunny,
        AssetId::PartlyCloudyDay,
        AssetId::HumidityPercentage,
        AssetId::Air,
    ]
}

fn full_registry() -> IconRegistry {
    let mut entries = Vec::new();
    for (n, asset) in all_assets().into_iter().enumerate() {
        entries.push(IconEntry { asset, bytes: vec![n as u8; 4] });
    }
    IconRegistry { entries }
}

fn snapshot(code: u16) -> WeatherData {
    WeatherData {
        weather: vec![Weather { id: code }],
        main: Main {
            temp_deci: 215,
            pressure: 1013,
            humidity: 40,
            sea_level: None,
            grnd_level: None,
        },
        wind: Wind { speed_deci: 32, deg_deci: 2505, gust_deci: None },
        dt: 1709596800,
        name: b"Tokyo".to_vec(),
    }
}

fn text_op(x: i32, y: i32, font: FontId, color: ColorId, s: &str) -> DrawOp {
    DrawOp::Text { x, y, font, color, text: s.as_bytes().to_vec() }
}

fn expected_ops(with_icon: bool) -> Vec<DrawOp> {
    let mut ops = vec![
        text_op(20, 10, FontId::ProFont24, ColorId::Black, "5/3/2024"),
        DrawOp::Line { x0: 0, y0: 45, x1: 200, y1: 45, stroke: 5 },
    ];
    if with_icon {
        ops.push(DrawOp::Bitmap { asset: AssetId::Sunny, x: 20, y: 50 });
    }
    ops.push(text_op(90, 60, FontId::ProFont24, ColorId::Black, "21.5\u{b0}C"));
    ops.push(DrawOp::Line { x0: 0, y0: 105, x1: 200, y1: 105, stroke: 5 });
    ops.push(DrawOp::Bitmap { asset: AssetId::HumidityPercentage, x: 5, y: 110 });
    ops.push(text_op(55, 120, FontId::ProFont18, ColorId::Black, "40"));
    ops.push(DrawOp::Line { x0: 90, y0: 120, x1: 90, y1: 150, stroke: 5 });
    ops.push(DrawOp::Bitmap { asset: AssetId::Air, x: 100, y: 110 });
    ops.push(text_op(150, 120, FontId::ProFont18, ColorId::Black, "3.2"));
    ops.push(text_op(150, 140, FontId::Font10X20, ColorId::Black, "m/s"));
    ops.push(DrawOp::FilledRect { x: 20, y: 170, width: 160, height: 40, stroke: 3 });
    ops.push(text_op(36, 170, FontId::ProFont24, ColorId::White, "implRust"));
    ops
}

fn cycle_command_vec() -> Vec<PanelCommand> {
    vec![
        PanelCommand::Wake,
        PanelCommand::Clear,
        PanelCommand::PushFrame,
        PanelCommand::Sleep,
    ]
}

#[test]
fn successful_cycle_draws_fixed_layout() {
    let mut dash = Dashboard::new(full_registry()).unwrap();
    assert_eq!(dash.surface.rotation, Rotation::Rotate90);
    let report = dash.refresh(Ok(snapshot(800)));
    assert_eq!(report.outcome, Ok(()));
    assert_eq!(report.commands, cycle_command_vec());
    assert_eq!(dash.surface.ops, expected_ops(true));
}

#[test]
fn draw_pass_is_deterministic() {
    let mut a = Dashboard::new(full_registry()).unwrap();
    let mut b = Dashboard::new(full_registry()).unwrap();
    a.refresh(Ok(snapshot(800)));
    a.refresh(Ok(snapshot(800)));
    b.refresh(Ok(snapshot(800)));
    assert_eq!(a.surface.ops, b.surface.ops);
}

#[test]
fn classification_miss_still_renders_rest_of_layout() {
    let mut dash = Dashboard::new(full_registry()).unwrap();
    let report = dash.refresh(Ok(snapshot(999)));
    assert_eq!(report.outcome, Ok(()));
    assert_eq!(report.commands, cycle_command_vec());
    assert_eq!(dash.surface.ops, expected_ops(false));
}

#[test]
fn failed_fetch_leaves_surface_and_issues_no_command() {
    let mut dash = Dashboard::new(full_registry()).unwrap();
    let report = dash.refresh(Ok(snapshot(800)));
    assert_eq!(report.outcome, Ok(()));
    for failure in [Failure::Transport, Failure::Protocol, Failure::DataShape] {
        let report = dash.refresh(Err(failure));
        assert_eq!(report.outcome, Err(failure));
        assert!(report.commands.is_empty());
        assert_eq!(dash.surface.ops, expected_ops(true));
    }
}

#[test]
fn malformed_body_aborts_cycle_with_surface_untouched() {
    let mut dash = Dashboard::new(full_registry()).unwrap();
    let report = dash.refresh(parse_weather(b"{\"weather\":[{\"id\":800}]}"));
    assert_eq!(report.outcome, Err(Failure::DataShape));
    assert!(report.commands.is_empty());
    assert!(dash.surface.ops.is_empty());
}

#[test]
fn registry_startup_check_catches_missing_asset() {
    let mut registry = full_registry();
    assert!(registry.is_complete());
    registry.entries.retain(|e| e.asset != AssetId::Air);
    assert!(!registry.is_complete());
    assert!(Dashboard::new(registry).is_none());
}

#[test]
fn every_classifier_icon_resolves_in_full_registry() {
    let dash = Dashboard::new(full_registry()).unwrap();
    for code in 0u16..=1000u16 {
        if let Some(id) = weather_station::weather::classify(code) {
            let asset = weather_station::icons::icon_asset(id);
            assert!(dash.get_icon(asset).is_some());
        }
    }
}

#[test]
fn get_icon_returns_first_matching_entry() {
    let mut registry = full_registry();
    registry.entries.push(IconEntry { asset: AssetId::Sunny, bytes: vec![99u8] });
    let sunny = registry.get_icon(AssetId::Sunny).unwrap().clone();
    assert_eq!(sunny, vec![7u8; 4]);
    assert!(registry.get_icon(AssetId::Air).is_some());
}

#[test]
fn panel_accepts_only_its_cycle_order() {
    assert_eq!(
        apply_command(PanelState::Sleeping, PanelCommand::Wake),
        Some(PanelState::Awake)
    );
    assert_eq!(
        apply_command(PanelState::Awake, PanelCommand::Clear),
        Some(PanelState::Cleared)
    );
    assert_eq!(
        apply_command(PanelState::Cleared, PanelCommand::PushFrame),
        Some(PanelState::Displaying)
    );
    assert_eq!(
        apply_command(PanelState::Displaying, PanelCommand::Sleep),
        Some(PanelState::Sleeping)
    );
    assert_eq!(apply_command(PanelState::Sleeping, PanelCommand::Clear), None);
    assert_eq!(apply_command(PanelState::Sleeping, PanelCommand::PushFrame), None);
    assert_eq!(apply_command(PanelState::Sleeping, PanelCommand::Sleep), None);
    assert_eq!(apply_command(PanelState::Awake, PanelCommand::Wake), None);
    assert_eq!(apply_command(PanelState::Cleared, PanelCommand::Clear), None);
    assert_eq!(apply_command(PanelState::Displaying, PanelCommand::PushFrame), None);
}

#[test]
fn panel_full_cycle_returns_to_sleep() {
    let mut state = PanelState::Sleeping;
    for command in cycle_command_vec() {
        state = apply_command(state, command).unwrap();
    }
    assert_eq!(state, PanelState::Sleeping);
}

#[test]
fn civil_conversion_matches_calendar() {
    assert_eq!(
        civil_from_unix(1709596800),
        Some(CivilDate { year: 2024, month: 3, day: 5 })
    );
    assert_eq!(civil_from_unix(0), Some(CivilDate { year: 1970, month: 1, day: 1 }));
    assert_eq!(
        civil_from_unix(951867000),
        Some(CivilDate { year: 2000, month: 2, day: 29 })
    );
    assert_eq!(
        civil_from_unix(-86400),
        Some(CivilDate { year: 1969, month: 12, day: 31 })
    );
}

#[test]
fn labels_format_tenths_and_integers() {
    assert_eq!(deci_text(215), b"21.5".to_vec());
    assert_eq!(deci_text(210), b"21".to_vec());
    assert_eq!(deci_text(0), b"0".to_vec());
    assert_eq!(deci_text(-5), b"-0.5".to_vec());
    assert_eq!(deci_text(-32), b"-3.2".to_vec());
    assert_eq!(deci_text(1009), b"100.9".to_vec());
    assert_eq!(i64_text(0), b"0".to_vec());
    assert_eq!(i64_text(-273), b"-273".to_vec());
    assert_eq!(u64_dec(1709596800), b"1709596800".to_vec());
}
