//! The refresh-cycle coordinator. One call plans and performs a whole
//! cycle over in-memory state: it turns a fetch result into the fixed
//! layout's draw operations on the display surface and the command
//! sequence that drives the panel through wake, clear, push and sleep.
//! A driver loop outside the crate performs the commands against the
//! hardware, waiting the settle delay after each, rasterises the draw
//! operations, and idles until the next cycle.

use vstd::prelude::*;
use vstd::string::StringSliceAdditionalSpecFns;
use crate::date::{civil_from_unix, civil_of, CivilDate};
use crate::icons::{asset_of_icon, icon_asset, AssetId, IconRegistry};
use crate::panel::{apply_command, cycle_commands, PanelCommand, PanelState};
use crate::textfmt::{append_bytes, dec_str, deci_str, deci_text, i64_text, int_str, u64_dec};
use crate::weather::{classify, classify_spec, Failure, WeatherData};

verus! {

/// The fonts the fixed layout uses.
#[derive(Clone, Copy, Debug, PartialEq, Eq, Structural)]
pub enum FontId {
    ProFont24,
    ProFont18,
    Font10X20,
}

/// The two colors of the panel.
#[derive(Clone, Copy, Debug, PartialEq, Eq, Structural)]
pub enum ColorId {
    Black,
    White,
}

/// Quarter-turn rotations of the surface.
#[derive(Clone, Copy, Debug, PartialEq, Eq, Structural)]
pub enum Rotation {
    Rotate0,
    Rotate90,
    Rotate180,
    Rotate270,
}

/// One drawing primitive, positions in panel pixels, text as UTF-8
/// bytes. Lines and rectangle are always black; text carries its color.
#[derive(Clone, Debug, PartialEq, Eq)]
pub enum DrawOp {
    Text { x: i32, y: i32, font: FontId, color: ColorId, text: Vec<u8> },
    Line { x0: i32, y0: i32, x1: i32, y1: i32, stroke: u32 },
    FilledRect { x: i32, y: i32, width: u32, height: u32, stroke: u32 },
    Bitmap { asset: AssetId, x: i32, y: i32 },
}

/// The mathematical shape of a drawing primitive.
pub enum DrawOpView {
    Text { x: int, y: int, font: FontId, color: ColorId, text: Seq<u8> },
    Line { x0: int, y0: int, x1: int, y1: int, stroke: int },
    FilledRect { x: int, y: int, width: int, height: int, stroke: int },
    Bitmap { asset: AssetId, x: int, y: int },
}

impl View for DrawOp {
    type V = DrawOpView;

    open spec fn view(&self) -> DrawOpView {
        match self {
            DrawOp::Text { x, y, font, color, text } => DrawOpView::Text {
                x: *x as int,
                y: *y as int,
                font: *font,
                color: *color,
                text: text@,
            },
            DrawOp::Line { x0, y0, x1, y1, stroke } => DrawOpView::Line {
                x0: *x0 as int,
                y0: *y0 as int,
                x1: *x1 as int,
                y1: *y1 as int,
                stroke: *stroke as int,
            },
            DrawOp::FilledRect { x, y, width, height, stroke } => DrawOpView::FilledRect {
                x: *x as int,
                y: *y as int,
                width: *width as int,
                height: *height as int,
                stroke: *stroke as int,
            },
            DrawOp::Bitmap { asset, x, y } => DrawOpView::Bitmap {
                asset: *asset,
                x: *x as int,
                y: *y as int,
            },
        }
    }
}

/// The views of a recorded operation sequence.
pub open spec fn ops_view_of(s: Seq<DrawOp>) -> Seq<DrawOpView> {
    Seq::new(s.len(), |i: int| s[i]@)
}

/// The in-memory two-color canvas: a rotation fixed at construction and
/// the operations drawn onto it since it was last cleared, in order. It
/// performs no layout of its own; the coordinator computes every
/// position.
pub struct DisplaySurface {
    pub rotation: Rotation,
    pub ops: Vec<DrawOp>,
}

impl DisplaySurface {
    /// What has been drawn since the last clear.
    pub open spec fn ops_view(&self) -> Seq<DrawOpView> {
        ops_view_of(self.ops@)
    }

    /// A fresh surface in the deployment's quarter-turn rotation.
    pub fn new() -> (r: DisplaySurface)
        ensures
            r.rotation == Rotation::Rotate90,
            r.ops@.len() == 0,
    {
        DisplaySurface { rotation: Rotation::Rotate90, ops: Vec::new() }
    }

    /// Resets the canvas to the background color.
    pub fn clear(&mut self)
        ensures
            final(self).ops@.len() == 0,
            final(self).rotation == old(self).rotation,
    {
        self.ops.clear();
    }
}

// ---------------------------------------------------------------------
// The fixed layout
// ---------------------------------------------------------------------
/// The date label: day, month and year separated by slashes.
pub open spec fn date_label(d: CivilDate) -> Seq<u8> {
    dec_str(d.day as int) + seq![47u8] + dec_str(d.month as int) + seq![47u8] + int_str(
        d.year as int,
    )
}

/// The temperature label: the value in tenths, then the degree sign and
/// a Celsius C.
pub open spec fn temp_label(t: int) -> Seq<u8> {
    deci_str(t) + "\u{00b0}C".spec_bytes()
}

/// Date text at the top, then a divider line.
pub open spec fn date_ops(d: CivilDate) -> Seq<DrawOpView> {
    seq![
        (DrawOpView::Text {
            x: 20,
            y: 10,
            font: FontId::ProFont24,
            color: ColorId::Black,
            text: date_label(d),
        }),
        (DrawOpView::Line { x0: 0, y0: 45, x1: 200, y1: 45, stroke: 5 }),
    ]
}

/// The weather icon, or nothing on a classification miss: the rest of
/// the layout still renders.
pub open spec fn icon_ops(code: u16) -> Seq<DrawOpView> {
    match classify_spec(code as int) {
        Some(id) => seq![(DrawOpView::Bitmap { asset: asset_of_icon(id), x: 20, y: 50 })],
        None => Seq::empty(),
    }
}

/// Temperature beside the icon, then a divider line.
pub open spec fn temp_ops(t: int) -> Seq<DrawOpView> {
    seq![
        (DrawOpView::Text {
            x: 90,
            y: 60,
            font: FontId::ProFont24,
            color: ColorId::Black,
            text: temp_label(t),
        }),
        (DrawOpView::Line { x0: 0, y0: 105, x1: 200, y1: 105, stroke: 5 }),
    ]
}

/// Humidity gauge in the lower left: icon, value, separator line.
pub open spec fn humidity_ops(h: int) -> Seq<DrawOpView> {
    seq![
        (DrawOpView::Bitmap { asset: AssetId::HumidityPercentage, x: 5, y: 110 }),
        (DrawOpView::Text {
            x: 55,
            y: 120,
            font: FontId::ProFont18,
            color: ColorId::Black,
            text: int_str(h),
        }),
        (DrawOpView::Line { x0: 90, y0: 120, x1: 90, y1: 150, stroke: 5 }),
    ]
}

/// Wind gauge in the lower right: icon, value in tenths, unit.
pub open spec fn wind_ops(w: int) -> Seq<DrawOpView> {
    seq![
        (DrawOpView::Bitmap { asset: AssetId::Air, x: 100, y: 110 }),
        (DrawOpView::Text {
            x: 150,
            y: 120,
            font: FontId::ProFont18,
            color: ColorId::Black,
            text: deci_str(w),
        }),
        (DrawOpView::Text {
            x: 150,
            y: 140,
            font: FontId::Font10X20,
            color: ColorId::Black,
            text: "m/s".spec_bytes(),
        }),
    ]
}

/// The signature band pinned to the bottom: a filled rectangle with the
/// label centered in it.
pub open spec fn signature_ops() -> Seq<DrawOpView> {
    seq![
        (DrawOpView::FilledRect { x: 20, y: 170, width: 160, height: 40, stroke: 3 }),
        (DrawOpView::Text {
            x: 36,
            y: 170,
            font: FontId::ProFont24,
            color: ColorId::White,
            text: "implRust".spec_bytes(),
        }),
    ]
}

/// The whole draw pass, in the fixed order of one cycle.
pub open spec fn layout_ops(date: CivilDate, code: u16, temp: int, hum: int, wind: int) -> Seq<
    DrawOpView,
> {
    date_ops(date) + icon_ops(code) + temp_ops(temp) + humidity_ops(hum) + wind_ops(wind)
        + signature_ops()
}

/// The calendar date the trusted conversion yields for a timestamp.
pub open spec fn date_of_spec(secs: int) -> CivilDate {
    CivilDate {
        year: civil_of(secs).0 as i32,
        month: civil_of(secs).1 as u8,
        day: civil_of(secs).2 as u8,
    }
}

// ---------------------------------------------------------------------
// The coordinator
// ---------------------------------------------------------------------
/// What one refresh cycle did: how it ended, and the panel commands it
/// issued, in order. A failed cycle issues none, so the prior displayed
/// image remains.
#[derive(Debug, PartialEq, Eq)]
pub struct CycleReport {
    pub outcome: Result<(), Failure>,
    pub commands: Vec<PanelCommand>,
}

/// Everything below the two delta clauses stays as it was.
pub open spec fn appended(pre: Dashboard, post: Dashboard, delta: Seq<DrawOpView>) -> bool {
    &&& post.surface.ops_view() == pre.surface.ops_view() + delta
    &&& post.surface.rotation == pre.surface.rotation
    &&& post.panel == pre.panel
    &&& post.registry == pre.registry
}

/// The dashboard: the surface it owns, the panel state it tracks, and
/// the icon registry it draws from.
pub struct Dashboard {
    pub surface: DisplaySurface,
    pub panel: PanelState,
    pub registry: IconRegistry,
}

impl Dashboard {
    /// Between cycles the panel sleeps and the registry, checked once at
    /// startup, stays complete.
    pub open spec fn wf(&self) -> bool {
        &&& self.panel == PanelState::Sleeping
        &&& self.registry.complete()
    }

    /// Builds the dashboard, running the startup check that every asset
    /// the layout can name is in the registry; an incomplete registry is
    /// a packaging defect and is refused outright.
    pub fn new(registry: IconRegistry) -> (r: Option<Dashboard>)
        ensures
            r matches Some(d) ==> d.wf() && d.surface.ops@.len() == 0 && d.surface.rotation
                == Rotation::Rotate90,
            r is Some <==> registry.complete(),
    {
        if registry.is_complete() {
            Some(
                Dashboard {
                    surface: DisplaySurface::new(),
                    panel: PanelState::Sleeping,
                    registry,
                },
            )
        } else {
            None
        }
    }

    /// Looks an icon asset up in the registry.
    pub fn get_icon(&self, asset: AssetId) -> (r: Option<&Vec<u8>>)
        ensures
            r matches Some(b) ==> exists|i: int|
                0 <= i < self.registry.entries@.len() && self.registry.entries@[i].asset == asset
                    && b@ == self.registry.entries@[i].bytes@,
            r is None ==> !self.registry.has_asset(asset),
    {
        self.registry.get_icon(asset)
    }

    /// Records the date label and its divider.
    fn draw_date(&mut self, date: CivilDate)
        ensures
            appended(*old(self), *final(self), date_ops(date)),
    {
        let mut text = u64_dec(date.day as u64);
        text.push(47);
        let mut month = u64_dec(date.month as u64);
        text.append(&mut month);
        text.push(47);
        let mut year = i64_text(date.year as i64);
        text.append(&mut year);
        proof {
            assert(text@ =~= date_label(date));
        }
        self.surface.ops.push(
            DrawOp::Text { x: 20, y: 10, font: FontId::ProFont24, color: ColorId::Black, text },
        );
        self.surface.ops.push(DrawOp::Line { x0: 0, y0: 45, x1: 200, y1: 45, stroke: 5 });
        proof {
            assert(self.surface.ops_view() =~= old(self).surface.ops_view() + date_ops(
                date,
            ));
        }
    }

    /// Records the weather icon, first confirming the registry entry
    /// that the blit will read its bitmap from.
    fn draw_icon(&mut self, asset: AssetId, x: i32, y: i32)
        requires
            old(self).registry.complete(),
        ensures
            appended(
                *old(self),
                *final(self),
                seq![(DrawOpView::Bitmap { asset, x: x as int, y: y as int })],
            ),
    {
        let found = self.get_icon(asset);
        assert(found is Some);
        self.surface.ops.push(DrawOp::Bitmap { asset, x, y });
        proof {
            assert(self.surface.ops_view() =~= old(self).surface.ops_view() + seq![
                (DrawOpView::Bitmap { asset, x: x as int, y: y as int }),
            ]);
        }
    }

    /// Records the temperature label and its divider.
    fn draw_temperature(&mut self, temp_deci: i64)
        requires
            i64::MIN < temp_deci,
        ensures
            appended(*old(self), *final(self), temp_ops(temp_deci as int)),
    {
        let mut text = deci_text(temp_deci);
        append_bytes(&mut text, "\u{00b0}C".as_bytes());
        self.surface.ops.push(
            DrawOp::Text { x: 90, y: 60, font: FontId::ProFont24, color: ColorId::Black, text },
        );
        self.surface.ops.push(DrawOp::Line { x0: 0, y0: 105, x1: 200, y1: 105, stroke: 5 });
        proof {
            assert(self.surface.ops_view() =~= old(self).surface.ops_view() + temp_ops(
                temp_deci as int,
            ));
        }
    }

    /// Records the humidity gauge.
    fn draw_humidity(&mut self, humidity: i32)
        requires
            old(self).registry.complete(),
        ensures
            appended(*old(self), *final(self), humidity_ops(humidity as int)),
    {
        self.draw_icon(AssetId::HumidityPercentage, 5, 110);
        let ghost mid = self.surface.ops@;
        let text = i64_text(humidity as i64);
        self.surface.ops.push(
            DrawOp::Text { x: 55, y: 120, font: FontId::ProFont18, color: ColorId::Black, text },
        );
        self.surface.ops.push(DrawOp::Line { x0: 90, y0: 120, x1: 90, y1: 150, stroke: 5 });
        proof {
            assert(self.surface.ops_view() =~= ops_view_of(mid) + humidity_ops(
                humidity as int,
            ).subrange(1, 3));
            assert(humidity_ops(humidity as int).subrange(0, 1) + humidity_ops(
                humidity as int,
            ).subrange(1, 3) =~= humidity_ops(humidity as int));
            assert(self.surface.ops_view() =~= old(self).surface.ops_view() + humidity_ops(
                humidity as int,
            ));
        }
    }

    /// Records the wind gauge.
    fn draw_wind(&mut self, speed_deci: i64)
        requires
            old(self).registry.complete(),
            i64::MIN < speed_deci,
        ensures
            appended(*old(self), *final(self), wind_ops(speed_deci as int)),
    {
        self.draw_icon(AssetId::Air, 100, 110);
        let ghost mid = self.surface.ops@;
        let text = deci_text(speed_deci);
        self.surface.ops.push(
            DrawOp::Text { x: 150, y: 120, font: FontId::ProFont18, color: ColorId::Black, text },
        );
        let mut unit: Vec<u8> = Vec::new();
        append_bytes(&mut unit, "m/s".as_bytes());
        self.surface.ops.push(
            DrawOp::Text {
                x: 150,
                y: 140,
                font: FontId::Font10X20,
                color: ColorId::Black,
                text: unit,
            },
        );
        proof {
            assert(Seq::<u8>::empty() + "m/s".spec_bytes() =~= "m/s".spec_bytes());
            assert(self.surface.ops_view() =~= ops_view_of(mid) + wind_ops(
                speed_deci as int,
            ).subrange(1, 3));
            assert(wind_ops(speed_deci as int).subrange(0, 1) + wind_ops(
                speed_deci as int,
            ).subrange(1, 3) =~= wind_ops(speed_deci as int));
            assert(self.surface.ops_view() =~= old(self).surface.ops_view() + wind_ops(
                speed_deci as int,
            ));
        }
    }

    /// Records the signature band, its label centered by the 16-pixel
    /// glyph cell of the large font.
    fn draw_signature(&mut self)
        ensures
            appended(*old(self), *final(self), signature_ops()),
    {
        let display_width: i32 = 200;
        let rect_padding: i32 = 20;
        let rect_width: i32 = display_width - 2 * rect_padding;
        self.surface.ops.push(
            DrawOp::FilledRect { x: rect_padding, y: 170, width: 160, height: 40, stroke: 3 },
        );
        let text_width: i32 = 8 * 16;
        let text_x: i32 = rect_padding + (rect_width - text_width) / 2;
        let mut text: Vec<u8> = Vec::new();
        append_bytes(&mut text, "implRust".as_bytes());
        self.surface.ops.push(
            DrawOp::Text { x: text_x, y: 170, font: FontId::ProFont24, color: ColorId::White, text },
        );
        proof {
            assert(Seq::<u8>::empty() + "implRust".spec_bytes() =~= "implRust".spec_bytes());
            assert(self.surface.ops_view() =~= old(self).surface.ops_view()
                + signature_ops());
        }
    }

    /// Runs one refresh cycle on a fetch result. A failed fetch, or an
    /// observation time the calendar cannot place, aborts the cycle with
    /// no command issued and the surface untouched, so the prior image
    /// remains; otherwise the surface is cleared and redrawn in full,
    /// the panel is driven through its four transitions, and the cycle
    /// reports success. A classification miss only leaves the icon slot
    /// blank. Success is owed for every record whose timestamp is
    /// within the calendar bound below.
    pub fn refresh(&mut self, fetch: Result<WeatherData, Failure>) -> (r: CycleReport)
        requires
            old(self).wf(),
            fetch matches Ok(d) ==> d.wf() && i64::MIN < d.main.temp_deci && i64::MIN
                < d.wind.speed_deci,
        ensures
            final(self).wf(),
            final(self).registry == old(self).registry,
            final(self).surface.rotation == old(self).surface.rotation,
            fetch matches Err(e) ==> r.outcome == Err::<(), Failure>(e) && final(self).surface
                == old(self).surface && r.commands@ == Seq::<PanelCommand>::empty(),
            fetch matches Ok(d) ==> {
                ||| {
                    &&& r.outcome == Err::<(), Failure>(Failure::DataShape)
                    &&& final(self).surface == old(self).surface
                    &&& r.commands@ == Seq::<PanelCommand>::empty()
                }
                ||| {
                    &&& r.outcome == Ok::<(), Failure>(())
                    &&& r.commands@ == cycle_commands()
                    &&& final(self).surface.ops_view() == layout_ops(
                        date_of_spec(d.dt as int),
                        d.weather@[0].id,
                        d.main.temp_deci as int,
                        d.main.humidity as int,
                        d.wind.speed_deci as int,
                    )
                }
            },
            fetch matches Ok(d) && 0 <= d.dt <= 253402300799 ==> r.outcome == Ok::<(), Failure>(
                (),
            ),
    {
        let data = match fetch {
            Err(e) => {
                return CycleReport { outcome: Err(e), commands: Vec::new() };
            },
            Ok(d) => d,
        };
        let date = match civil_from_unix(data.dt) {
            None => {
                return CycleReport { outcome: Err(Failure::DataShape), commands: Vec::new() };
            },
            Some(d) => d,
        };
        assert(date == date_of_spec(data.dt as int));
        let mut commands: Vec<PanelCommand> = Vec::new();

        // Waking
        commands.push(PanelCommand::Wake);
        let next = apply_command(self.panel, PanelCommand::Wake);
        assert(next == Some(PanelState::Awake));
        self.panel = next.unwrap();

        // Clearing: the panel frame and the in-memory surface together
        commands.push(PanelCommand::Clear);
        let next = apply_command(self.panel, PanelCommand::Clear);
        assert(next == Some(PanelState::Cleared));
        self.panel = next.unwrap();
        self.surface.clear();

        // Drawing, in the fixed order of the layout
        self.draw_date(date);
        match classify(data.weather[0].id) {
            Some(id) => {
                let asset = icon_asset(id);
                self.draw_icon(asset, 20, 50);
            },
            None => {},
        }
        self.draw_temperature(data.main.temp_deci);
        self.draw_humidity(data.main.humidity);
        self.draw_wind(data.wind.speed_deci);
        self.draw_signature();

        // Pushing
        commands.push(PanelCommand::PushFrame);
        let next = apply_command(self.panel, PanelCommand::PushFrame);
        assert(next == Some(PanelState::Displaying));
        self.panel = next.unwrap();

        // Sleeping
        commands.push(PanelCommand::Sleep);
        let next = apply_command(self.panel, PanelCommand::Sleep);
        assert(next == Some(PanelState::Sleeping));
        self.panel = next.unwrap();

        proof {
            assert(commands@ =~= cycle_commands());
            assert(self.surface.ops_view() =~= layout_ops(
                date_of_spec(data.dt as int),
                data.weather@[0].id,
                data.main.temp_deci as int,
                data.main.humidity as int,
                data.wind.speed_deci as int,
            ));
        }
        CycleReport { outcome: Ok(()), commands }
    }
}

/// Law: the draw pass is a function of the parsed record alone: two
/// successful cycles over the same record leave identical operation
/// sequences on their surfaces, whatever was drawn before.
pub proof fn lemma_draw_pass_deterministic(a: Dashboard, b: Dashboard, d: WeatherData)
    requires
        a.surface.ops_view() == layout_ops(
            date_of_spec(d.dt as int),
            d.weather@[0].id,
            d.main.temp_deci as int,
            d.main.humidity as int,
            d.wind.speed_deci as int,
        ),
        b.surface.ops_view() == layout_ops(
            date_of_spec(d.dt as int),
            d.weather@[0].id,
            d.main.temp_deci as int,
            d.main.humidity as int,
            d.wind.speed_deci as int,
        ),
    ensures
        a.surface.ops_view() == b.surface.ops_view(),
{
}

/// Seconds the coordinator idles between cycles.
pub fn idle_delay_secs() -> (r: u64)
    ensures
        r == 600,
{
    600
}

/// Seconds the driver must let the panel settle after each command.
pub fn settle_delay_secs() -> (r: u64)
    ensures
        r == 2,
{
    2
}

} // verus!
