//! The display refresh controller: what a redraw request puts on the panel.
//!
//! A redraw is a list of [`DisplayOp`]s. The firmware performs them in order on
//! the panel driver; a step that fails is skipped and the rest still runs, so
//! the panel is at worst stale until the next request.

use vstd::prelude::*;
use embedded_graphics::primitives::Rectangle;
use uc8151::UpdateRegion;
use crate::clock::DateTime;
use crate::state::{CurrentWeather, Screen};
use crate::text::{decimal, digit_char, digit_text, push_decimal, push_two_digits, two_digits};

verus! {

/// `uc8151::UpdateRegion`: a rectangle of the panel as the driver takes it for
/// a partial update. Nothing is known of a value but what made it.
#[verifier::external_type_specification]
#[verifier::external_body]
pub struct ExUpdateRegion(UpdateRegion);

/// Width of the panel in pixels.
pub const WIDTH: u32 = 296;

/// Height of the panel in pixels.
pub const HEIGHT: u32 = 128;

/// Height of the header strip in pixels.
pub const TOP_BAR_HEIGHT: u32 = 24;

/// A pixel position; `x` grows to the right and `y` downwards.
#[derive(Clone, Copy, PartialEq, Eq, Structural, Debug)]
pub struct Point {
    pub x: i32,
    pub y: i32,
}

/// The two colours of the panel.
#[derive(Clone, Copy, PartialEq, Eq, Structural, Debug)]
pub enum Color {
    /// The background.
    On,
    /// The ink.
    Off,
}

/// The refresh drive profile: `Medium` clears ghosting but is slow, `Fast` is
/// quick and may leave traces of what was shown before.
#[derive(Clone, Copy, PartialEq, Eq, Structural, Debug)]
pub enum Waveform {
    Medium,
    Fast,
}

/// What the header shows for a condition code.
pub open spec fn description_of(code: u8) -> Seq<char> {
    if code == 0 {
        "Clear"@
    } else if code == 1 {
        "Mainly Clear"@
    } else if code == 2 {
        "Part Cloudy"@
    } else if code == 3 {
        "Cloudy"@
    } else if 45 <= code <= 48 {
        "Fog"@
    } else if 51 <= code <= 55 {
        "Drizzle"@
    } else if code == 56 || code == 57 {
        "Frizzle"@
    } else if code == 61 {
        "Light Rain"@
    } else if code == 63 {
        "Rain"@
    } else if code == 65 {
        "Heavy Rain"@
    } else if code == 66 || code == 67 {
        "Frzing Rain"@
    } else if code == 71 {
        "Light Snow"@
    } else if code == 73 {
        "Snow"@
    } else if code == 75 {
        "Heavy Snow"@
    } else if code == 77 {
        "Snow Grains"@
    } else if 80 <= code <= 82 {
        "Rain Showers"@
    } else if code == 85 || code == 86 {
        "Snow Showers"@
    } else if code == 95 {
        "Thunderstorm"@
    } else if code == 96 || code == 99 {
        "Hailstorm"@
    } else {
        "Unknown"@
    }
}

/// The words for a WMO weather condition code; a code without a word of its
/// own is "Unknown".
pub fn weather_description(code: u8) -> (words: &'static str)
    ensures
        words@ == description_of(code),
{
    match code {
        0 => "Clear",
        1 => "Mainly Clear",
        2 => "Part Cloudy",
        3 => "Cloudy",
        45..=48 => "Fog",
        51..=55 => "Drizzle",
        56 | 57 => "Frizzle",
        61 => "Light Rain",
        63 => "Rain",
        65 => "Heavy Rain",
        66 | 67 => "Frzing Rain",
        71 => "Light Snow",
        73 => "Snow",
        75 => "Heavy Snow",
        77 => "Snow Grains",
        80..=82 => "Rain Showers",
        85 | 86 => "Snow Showers",
        95 => "Thunderstorm",
        96 | 99 => "Hailstorm",
        _ => "Unknown",
    }
}

/// The hour on a twelve-hour dial: midnight and noon are 12.
pub open spec fn twelve_hour(hour: int) -> int {
    if hour == 0 {
        12
    } else if hour <= 12 {
        hour
    } else {
        hour - 12
    }
}

/// The clock readout for an hour and a minute: both with two digits, then
/// "AM" before noon and "PM" from noon on.
pub open spec fn display_time_of(hour: int, minute: int) -> Seq<char> {
    two_digits(twelve_hour(hour) as nat) + seq![':'] + two_digits(minute as nat) + seq![' ']
        + (if hour < 12 {
        seq!['A', 'M']
    } else {
        seq!['P', 'M']
    })
}

/// The clock readout of `time` on a twelve-hour dial, such as "01:05 PM".
pub fn get_display_time(time: DateTime) -> (text: String)
    ensures
        text@ == display_time_of(time.hour as int, time.minute as int),
        time.valid() ==> text@.len() == 8,
{
    proof {
        if time.valid() {
            lemma_display_time_len(time.hour as int, time.minute as int);
        }
    }
    let mut am = true;
    let twelve_hour: u8 = if time.hour == 0 {
        12
    } else if time.hour == 12 {
        am = false;
        12
    } else if time.hour > 12 {
        am = false;
        time.hour - 12
    } else {
        time.hour
    };
    let am_pm = if am {
        "AM"
    } else {
        "PM"
    };
    proof {
        reveal_strlit(":");
        reveal_strlit(" ");
        reveal_strlit("AM");
        reveal_strlit("PM");
    }
    let mut text = String::new();
    push_two_digits(&mut text, twelve_hour as u32);
    text.append(":");
    push_two_digits(&mut text, time.minute as u32);
    text.append(" ");
    text.append(am_pm);
    assert(text@ =~= display_time_of(time.hour as int, time.minute as int));
    text
}

/// A readout of a time of day has eight characters.
pub proof fn lemma_display_time_len(hour: int, minute: int)
    requires
        0 <= hour < 24,
        0 <= minute < 60,
    ensures
        display_time_of(hour, minute).len() == 8,
{
    reveal_with_fuel(decimal, 2);
}

/// The temperature as the header prints it: the degrees, and the tenth after a
/// point unless it is zero; a minus sign in front when it is below zero.
pub open spec fn temperature_of(tenths: int) -> Seq<char> {
    let size = if tenths < 0 {
        -tenths
    } else {
        tenths
    };
    (if tenths < 0 {
        seq!['-']
    } else {
        Seq::<char>::empty()
    }) + decimal((size / 10) as nat) + (if size % 10 != 0 {
        seq!['.', digit_char(size % 10)]
    } else {
        Seq::<char>::empty()
    })
}

/// The weather line of the header: temperature, unit and condition.
pub open spec fn weather_text_of(weather: CurrentWeather) -> Seq<char> {
    temperature_of(weather.temperature as int) + seq!['C', ' ', '|', ' '] + description_of(
        weather.weathercode,
    )
}

/// The weather line of the header, such as "12.5C | Cloudy".
pub fn weather_text(weather: CurrentWeather) -> (text: String)
    ensures
        text@ == weather_text_of(weather),
{
    let tenths: i32 = weather.temperature as i32;
    let size: u32 = if tenths < 0 {
        (-tenths) as u32
    } else {
        tenths as u32
    };
    proof {
        reveal_strlit("-");
        reveal_strlit(".");
        reveal_strlit("C | ");
    }
    let mut text = String::new();
    if tenths < 0 {
        text.append("-");
    }
    push_decimal(&mut text, size / 10);
    if size % 10 != 0 {
        text.append(".");
        text.append(digit_text(size % 10));
    }
    text.append("C | ");
    text.append(weather_description(weather.weathercode));
    assert(text@ =~= weather_text_of(weather));
    text
}

/// An upright rectangle of pixels: its top left corner and its size.
#[derive(Clone, Copy, PartialEq, Eq, Structural, Debug)]
pub struct Rect {
    pub x: i32,
    pub y: i32,
    pub width: u32,
    pub height: u32,
}

impl Rect {
    /// Whether the pixel at (`px`, `py`) lies in the rectangle.
    pub open spec fn contains(&self, px: int, py: int) -> bool {
        self.x <= px < self.x + self.width && self.y <= py < self.y + self.height
    }

    /// Whether every pixel of the rectangle lies in `outer`.
    pub open spec fn within(&self, outer: Rect) -> bool {
        &&& outer.x <= self.x
        &&& outer.y <= self.y
        &&& self.x + self.width <= outer.x + outer.width
        &&& self.y + self.height <= outer.y + outer.height
    }
}

/// The whole panel.
pub open spec fn panel_area() -> Rect {
    Rect { x: 0, y: 0, width: WIDTH, height: HEIGHT }
}

/// The header: the full width, the top strip.
pub open spec fn top_bar_area() -> Rect {
    Rect { x: 0, y: 0, width: WIDTH, height: TOP_BAR_HEIGHT }
}

/// The clock: a box at the right end of the header.
pub open spec fn time_area() -> Rect {
    Rect { x: 192, y: 0, width: 104, height: TOP_BAR_HEIGHT }
}

/// The part of the clock box that is wiped before a new readout is drawn.
pub open spec fn time_clear_area() -> Rect {
    Rect { x: 192, y: 1, width: 88, height: 22 }
}

/// The image: everything below the header.
pub open spec fn image_area() -> Rect {
    Rect { x: 0, y: 24, width: WIDTH, height: (HEIGHT - TOP_BAR_HEIGHT) as u32 }
}

/// Where the weather line starts.
pub open spec fn weather_anchor() -> Point {
    Point { x: 8, y: 16 }
}

/// Where the clock readout starts.
pub open spec fn time_anchor() -> Point {
    Point { x: 198, y: 16 }
}

/// Where the image is placed.
pub open spec fn image_anchor() -> Point {
    Point { x: 0, y: 24 }
}

/// One step of a redraw, in the order the panel driver is to see them.
#[derive(Clone, Copy, PartialEq, Eq, Structural, Debug)]
pub enum DisplayOp {
    /// Take the shared power rail; nothing else may hold it.
    Acquire,
    /// Switch the panel controller on.
    Enable,
    /// Load the waveform for this refresh.
    Setup(Waveform),
    /// Paint a rectangle, with a one pixel border where `stroke` names a colour.
    Fill { area: Rect, fill: Color, stroke: Option<Color> },
    /// Write the weather line.
    Weather { at: Point, weather: CurrentWeather },
    /// Write the clock readout.
    Clock { at: Point, time: DateTime },
    /// Place stored image number `image`.
    Bitmap { at: Point, image: usize },
    /// Commit the whole frame to the panel.
    Update,
    /// Commit one rectangle of the frame to the panel.
    PartialUpdate(Rect),
    /// Switch the panel controller off.
    Disable,
    /// Give the power rail back.
    Release,
    /// Power the panel off.
    Off,
    /// Send the panel into deep sleep.
    DeepSleep,
}

/// The waveform for a request: the clean one for a full redraw, the fast one
/// for everything else.
pub open spec fn waveform_for(request: Screen) -> Waveform {
    if request == Screen::Full {
        Waveform::Medium
    } else {
        Waveform::Fast
    }
}

/// The weather line, when a report is known.
pub open spec fn weather_ops(weather: Option<CurrentWeather>) -> Seq<DisplayOp> {
    match weather {
        Some(report) => seq![DisplayOp::Weather { at: weather_anchor(), weather: report }],
        None => Seq::empty(),
    }
}

/// The clock readout, when the time is known. On its own (`partial`) the box is
/// wiped first and committed afterwards.
pub open spec fn time_ops(clock: Option<DateTime>, partial: bool) -> Seq<DisplayOp> {
    match clock {
        Some(time) => {
            if partial {
                seq![
                    DisplayOp::Fill { area: time_clear_area(), fill: Color::On, stroke: None },
                    DisplayOp::Clock { at: time_anchor(), time },
                    DisplayOp::PartialUpdate(time_area()),
                ]
            } else {
                seq![DisplayOp::Clock { at: time_anchor(), time }]
            }
        },
        None => Seq::empty(),
    }
}

/// The header: its framed background, the weather line and the clock readout.
pub open spec fn top_bar_ops(
    clock: Option<DateTime>,
    weather: Option<CurrentWeather>,
    partial: bool,
) -> Seq<DisplayOp> {
    seq![DisplayOp::Fill { area: top_bar_area(), fill: Color::On, stroke: Some(Color::Off) }]
        + weather_ops(weather) + time_ops(clock, false) + (if partial {
        seq![DisplayOp::PartialUpdate(top_bar_area())]
    } else {
        Seq::empty()
    })
}

/// The image: its area wiped to the background, then the bitmap.
pub open spec fn image_ops(image: usize, partial: bool) -> Seq<DisplayOp> {
    seq![
        DisplayOp::Fill { area: image_area(), fill: Color::On, stroke: None },
        DisplayOp::Bitmap { at: image_anchor(), image },
    ] + (if partial {
        seq![DisplayOp::PartialUpdate(image_area())]
    } else {
        Seq::empty()
    })
}

/// Every widget, committed as one frame.
pub open spec fn badge_ops(
    clock: Option<DateTime>,
    weather: Option<CurrentWeather>,
    image: usize,
) -> Seq<DisplayOp> {
    top_bar_ops(clock, weather, false) + image_ops(image, false) + seq![DisplayOp::Update]
}

/// What a request draws and commits.
pub open spec fn draw_ops(
    request: Screen,
    clock: Option<DateTime>,
    weather: Option<CurrentWeather>,
    image: usize,
) -> Seq<DisplayOp> {
    match request {
        Screen::Full => badge_ops(clock, weather, image),
        Screen::TopBar => top_bar_ops(clock, weather, true),
        Screen::Time => time_ops(clock, true),
        Screen::Image => image_ops(image, true),
        Screen::Shutdown => Seq::empty(),
    }
}

/// One refresh cycle: the rail is taken, the panel switched on and configured,
/// the request drawn and committed, the panel switched off, the rail given back.
pub open spec fn screen_update(
    request: Screen,
    clock: Option<DateTime>,
    weather: Option<CurrentWeather>,
    image: usize,
) -> Seq<DisplayOp> {
    seq![DisplayOp::Acquire, DisplayOp::Enable, DisplayOp::Setup(waveform_for(request))]
        + draw_ops(request, clock, weather, image) + seq![DisplayOp::Disable, DisplayOp::Release]
}

/// Adds the weather line to a redraw, when a report is known.
pub fn draw_weather(ops: &mut Vec<DisplayOp>, weather: Option<CurrentWeather>)
    ensures
        final(ops)@ == old(ops)@ + weather_ops(weather),
{
    if let Some(report) = weather {
        ops.push(DisplayOp::Weather { at: Point { x: 8, y: 16 }, weather: report });
    }
    assert(ops@ =~= old(ops)@ + weather_ops(weather));
}

/// Adds the clock readout to a redraw, when the time is known. With `partial`
/// the clock box is wiped before and committed after.
pub fn draw_time(ops: &mut Vec<DisplayOp>, clock: Option<DateTime>, partial: bool)
    ensures
        final(ops)@ == old(ops)@ + time_ops(clock, partial),
{
    if let Some(time) = clock {
        if partial {
            ops.push(
                DisplayOp::Fill {
                    area: Rect { x: 192, y: 1, width: 88, height: 22 },
                    fill: Color::On,
                    stroke: None,
                },
            );
        }
        ops.push(DisplayOp::Clock { at: Point { x: (WIDTH - 98) as i32, y: 16 }, time });
        if partial {
            ops.push(
                DisplayOp::PartialUpdate(
                    Rect { x: 192, y: 0, width: 104, height: TOP_BAR_HEIGHT },
                ),
            );
        }
    }
    assert(ops@ =~= old(ops)@ + time_ops(clock, partial));
}

/// Adds the header to a redraw: background, weather line and clock readout.
/// With `partial` the header strip is committed afterwards.
pub fn draw_top_bar(
    ops: &mut Vec<DisplayOp>,
    clock: Option<DateTime>,
    weather: Option<CurrentWeather>,
    partial: bool,
)
    ensures
        final(ops)@ == old(ops)@ + top_bar_ops(clock, weather, partial),
{
    let top_bounds = Rect { x: 0, y: 0, width: WIDTH, height: TOP_BAR_HEIGHT };
    ops.push(DisplayOp::Fill { area: top_bounds, fill: Color::On, stroke: Some(Color::Off) });
    draw_weather(ops, weather);
    draw_time(ops, clock, false);
    if partial {
        ops.push(DisplayOp::PartialUpdate(top_bounds));
    }
    assert(ops@ =~= old(ops)@ + top_bar_ops(clock, weather, partial));
}

/// Adds the selected image to a redraw. Its whole area is wiped first, so that
/// nothing of a larger image shown before is left. With `partial` the area is
/// committed afterwards.
pub fn draw_current_image(ops: &mut Vec<DisplayOp>, image: usize, partial: bool)
    ensures
        final(ops)@ == old(ops)@ + image_ops(image, partial),
{
    let clear_rectangle = Rect {
        x: 0,
        y: 24,
        width: WIDTH,
        height: HEIGHT - TOP_BAR_HEIGHT,
    };
    ops.push(DisplayOp::Fill { area: clear_rectangle, fill: Color::On, stroke: None });
    ops.push(DisplayOp::Bitmap { at: Point { x: 0, y: 24 }, image });
    if partial {
        ops.push(DisplayOp::PartialUpdate(clear_rectangle));
    }
    assert(ops@ =~= old(ops)@ + image_ops(image, partial));
}

/// Adds every widget to a redraw and commits the whole frame.
pub fn draw_badge(
    ops: &mut Vec<DisplayOp>,
    clock: Option<DateTime>,
    weather: Option<CurrentWeather>,
    image: usize,
)
    ensures
        final(ops)@ == old(ops)@ + badge_ops(clock, weather, image),
{
    draw_top_bar(ops, clock, weather, false);
    draw_current_image(ops, image, false);
    ops.push(DisplayOp::Update);
    assert(ops@ =~= old(ops)@ + badge_ops(clock, weather, image));
}

/// The steps of one refresh cycle for `request`, given the time and weather
/// that are known and the selected image.
pub fn update_screen(
    request: Screen,
    clock: Option<DateTime>,
    weather: Option<CurrentWeather>,
    image: usize,
) -> (ops: Vec<DisplayOp>)
    ensures
        ops@ == screen_update(request, clock, weather, image),
{
    let mut ops: Vec<DisplayOp> = Vec::new();
    ops.push(DisplayOp::Acquire);
    ops.push(DisplayOp::Enable);
    let lut = match request {
        Screen::Full => Waveform::Medium,
        _ => Waveform::Fast,
    };
    ops.push(DisplayOp::Setup(lut));
    match request {
        Screen::Full => {
            draw_badge(&mut ops, clock, weather, image);
        },
        Screen::TopBar => {
            draw_top_bar(&mut ops, clock, weather, true);
        },
        Screen::Time => {
            draw_time(&mut ops, clock, true);
        },
        Screen::Image => {
            draw_current_image(&mut ops, image, true);
        },
        Screen::Shutdown => {},
    }
    ops.push(DisplayOp::Disable);
    ops.push(DisplayOp::Release);
    assert(ops@ =~= screen_update(request, clock, weather, image));
    ops
}

/// The rectangle that belongs to a request for one widget; the whole panel for
/// any other request.
pub open spec fn widget_area(request: Screen) -> Rect {
    match request {
        Screen::TopBar => top_bar_area(),
        Screen::Time => time_area(),
        Screen::Image => image_area(),
        _ => panel_area(),
    }
}

/// Whether a step commits the pixel at (`px`, `py`) to the panel.
pub open spec fn refreshes(op: DisplayOp, px: int, py: int) -> bool {
    match op {
        DisplayOp::Update => panel_area().contains(px, py),
        DisplayOp::PartialUpdate(area) => area.contains(px, py),
        _ => false,
    }
}

/// Whether a step draws, and then only at or inside `area`.
pub open spec fn draws_inside(op: DisplayOp, area: Rect) -> bool {
    match op {
        DisplayOp::Fill { area: filled, .. } => filled.within(area),
        DisplayOp::Weather { at, .. } => area.contains(at.x as int, at.y as int),
        DisplayOp::Clock { at, .. } => area.contains(at.x as int, at.y as int),
        DisplayOp::Bitmap { at, .. } => area.contains(at.x as int, at.y as int),
        _ => false,
    }
}

/// Whether a step draws into the frame.
pub open spec fn is_drawing(op: DisplayOp) -> bool {
    op is Fill || op is Weather || op is Clock || op is Bitmap
}

/// A request for one widget touches nothing but that widget: every step that
/// draws stays inside the widget's rectangle, and no pixel outside the
/// rectangle is committed to the panel.
pub proof fn lemma_partial_redraw_stays_inside(
    request: Screen,
    clock: Option<DateTime>,
    weather: Option<CurrentWeather>,
    image: usize,
)
    requires
        request == Screen::TopBar || request == Screen::Time || request == Screen::Image,
    ensures
        forall|i: int|
            0 <= i < screen_update(request, clock, weather, image).len() && is_drawing(
                #[trigger] screen_update(request, clock, weather, image)[i],
            ) ==> draws_inside(
                screen_update(request, clock, weather, image)[i],
                widget_area(request),
            ),
        forall|i: int, px: int, py: int|
            0 <= i < screen_update(request, clock, weather, image).len() && #[trigger] refreshes(
                screen_update(request, clock, weather, image)[i],
                px,
                py,
            ) ==> widget_area(request).contains(px, py),
        forall|i: int|
            0 <= i < screen_update(request, clock, weather, image).len()
                ==> #[trigger] screen_update(request, clock, weather, image)[i]
                != DisplayOp::Update,
{
}

/// A full request redraws every widget rectangle and commits every pixel of
/// the panel: the header and the image area are both painted, they cover the
/// panel between them, the bitmap is placed, and the last step before the panel
/// is switched off is the commit of the whole frame.
pub proof fn lemma_full_redraw_covers_panel(
    clock: Option<DateTime>,
    weather: Option<CurrentWeather>,
    image: usize,
)
    ensures
        screen_update(Screen::Full, clock, weather, image).contains(
            DisplayOp::Fill { area: top_bar_area(), fill: Color::On, stroke: Some(Color::Off) },
        ),
        screen_update(Screen::Full, clock, weather, image).contains(
            DisplayOp::Fill { area: image_area(), fill: Color::On, stroke: None },
        ),
        screen_update(Screen::Full, clock, weather, image).contains(
            DisplayOp::Bitmap { at: image_anchor(), image },
        ),
        forall|px: int, py: int| #[trigger]
            panel_area().contains(px, py) ==> top_bar_area().contains(px, py)
                || image_area().contains(px, py),
        time_area().within(top_bar_area()),
        ({
            let ops = screen_update(Screen::Full, clock, weather, image);
            ops[ops.len() - 3] == DisplayOp::Update
        }),
        forall|px: int, py: int| #[trigger]
            panel_area().contains(px, py) ==> refreshes(DisplayOp::Update, px, py),
{
    let ops = screen_update(Screen::Full, clock, weather, image);
    let header = top_bar_ops(clock, weather, false);
    let picture = image_ops(image, false);
    assert(ops[3] == DisplayOp::Fill {
        area: top_bar_area(),
        fill: Color::On,
        stroke: Some(Color::Off),
    });
    assert(ops[3 + header.len() as int] == picture[0]);
    assert(ops[3 + header.len() as int + 1] == picture[1]);
}

/// Redrawing the image is repeatable: the steps depend on the selected image
/// alone, so two redraws with the same selection place the same bitmap at the
/// same position, whatever the time and the weather have become.
pub proof fn lemma_image_redraw_repeats(
    first_clock: Option<DateTime>,
    first_weather: Option<CurrentWeather>,
    second_clock: Option<DateTime>,
    second_weather: Option<CurrentWeather>,
    image: usize,
)
    ensures
        screen_update(Screen::Image, first_clock, first_weather, image) == screen_update(
            Screen::Image,
            second_clock,
            second_weather,
            image,
        ),
        screen_update(Screen::Image, first_clock, first_weather, image).contains(
            DisplayOp::Bitmap { at: image_anchor(), image },
        ),
{
    let ops = screen_update(Screen::Image, first_clock, first_weather, image);
    assert(ops[4] == DisplayOp::Bitmap { at: image_anchor(), image });
}

/// What the panel shows after a step, pixel by pixel, when `frame` is what has
/// been drawn by then: a commit copies the pixels it commits from the frame to
/// the panel; no other step changes what the panel shows.
pub open spec fn panel_after(
    panel: spec_fn(int, int) -> Color,
    frame: spec_fn(int, int) -> Color,
    op: DisplayOp,
) -> spec_fn(int, int) -> Color {
    |px: int, py: int|
        if refreshes(op, px, py) {
            frame(px, py)
        } else {
            panel(px, py)
        }
}

/// What the panel shows after the first `count` steps of `ops`, when
/// `frames[i]` is what has been drawn by step `i`.
pub open spec fn panel_through(
    panel: spec_fn(int, int) -> Color,
    frames: Seq<spec_fn(int, int) -> Color>,
    ops: Seq<DisplayOp>,
    count: nat,
) -> spec_fn(int, int) -> Color
    decreases count,
{
    if count == 0 {
        panel
    } else {
        panel_after(
            panel_through(panel, frames, ops, (count - 1) as nat),
            frames[count - 1],
            ops[count - 1],
        )
    }
}

/// A request for one widget leaves the rest of the panel as it was: whatever
/// the steps draw into the frame, a pixel outside the widget's rectangle shows
/// after the cycle what it showed before.
pub proof fn lemma_partial_redraw_keeps_the_rest(
    request: Screen,
    clock: Option<DateTime>,
    weather: Option<CurrentWeather>,
    image: usize,
    panel: spec_fn(int, int) -> Color,
    frames: Seq<spec_fn(int, int) -> Color>,
    count: nat,
    px: int,
    py: int,
)
    requires
        request == Screen::TopBar || request == Screen::Time || request == Screen::Image,
        count <= screen_update(request, clock, weather, image).len(),
        !widget_area(request).contains(px, py),
    ensures
        panel_through(panel, frames, screen_update(request, clock, weather, image), count)(px, py)
            == panel(px, py),
    decreases count,
{
    if count > 0 {
        lemma_partial_redraw_keeps_the_rest(
            request,
            clock,
            weather,
            image,
            panel,
            frames,
            (count - 1) as nat,
            px,
            py,
        );
        lemma_partial_redraw_stays_inside(request, clock, weather, image);
        let ops = screen_update(request, clock, weather, image);
        assert(!refreshes(ops[count - 1], px, py));
    }
}

/// A full request brings the whole panel up to date: after the cycle every
/// pixel of the panel shows what the frame held when it was committed.
pub proof fn lemma_full_redraw_shows_the_frame(
    clock: Option<DateTime>,
    weather: Option<CurrentWeather>,
    image: usize,
    panel: spec_fn(int, int) -> Color,
    frames: Seq<spec_fn(int, int) -> Color>,
    px: int,
    py: int,
)
    requires
        panel_area().contains(px, py),
    ensures
        ({
            let ops = screen_update(Screen::Full, clock, weather, image);
            panel_through(panel, frames, ops, ops.len())(px, py) == frames[ops.len() - 3](px, py)
        }),
{
    let ops = screen_update(Screen::Full, clock, weather, image);
    lemma_full_redraw_covers_panel(clock, weather, image);
    let last = ops.len();
    assert(ops[last - 1] == DisplayOp::Release);
    assert(ops[last - 2] == DisplayOp::Disable);
    assert(ops[last - 3] == DisplayOp::Update);
    reveal_with_fuel(panel_through, 4);
}

/// Whether the panel driver takes `area` for a partial commit: the corner is on
/// the panel side of both axes, and both the top edge and the height are
/// multiples of eight, since the panel stores eight rows in one byte.
pub open spec fn is_update_area(area: Rect) -> bool {
    area.x >= 0 && area.y >= 0 && area.y % 8 == 0 && area.height % 8 == 0
}

/// The driver's region for `area`, where it takes `area` as one.
pub uninterp spec fn update_region_of(area: Rect) -> UpdateRegion;

/// `UpdateRegion::try_from` on the `Rectangle` with the corner and size of
/// `area`. The conversion refuses a corner with a negative coordinate, and
/// `UpdateRegion::new` behind it refuses a top edge or a height that is not a
/// multiple of eight; every other rectangle becomes a region.
#[verifier::external_body]
fn try_update_region(area: Rect) -> (region: Option<UpdateRegion>)
    ensures
        region == (if is_update_area(area) {
            Some(update_region_of(area))
        } else {
            None
        }),
{
    let corner = embedded_graphics::geometry::Point::new(area.x, area.y);
    let size = embedded_graphics::geometry::Size::new(area.width, area.height);
    UpdateRegion::try_from(Rectangle::new(corner, size)).ok()
}

/// The region that a step commits, as the panel driver wants it.
pub open spec fn region_of_step(op: DisplayOp) -> Option<UpdateRegion> {
    match op {
        DisplayOp::PartialUpdate(area) => if is_update_area(area) {
            Some(update_region_of(area))
        } else {
            None
        },
        _ => None,
    }
}

impl DisplayOp {
    /// The region to hand to the panel driver for this step: there is one for
    /// a partial commit of a rectangle that the driver takes, and for nothing
    /// else.
    pub fn update_region(&self) -> (region: Option<UpdateRegion>)
        ensures
            region == region_of_step(*self),
    {
        match self {
            DisplayOp::PartialUpdate(area) => try_update_region(*area),
            _ => None,
        }
    }
}

/// Every partial commit of a refresh cycle names a rectangle that the panel
/// driver takes, and that lies on the panel.
pub proof fn lemma_commits_are_update_areas(
    request: Screen,
    clock: Option<DateTime>,
    weather: Option<CurrentWeather>,
    image: usize,
)
    ensures
        forall|i: int|
            0 <= i < screen_update(request, clock, weather, image).len() && (
            #[trigger] screen_update(request, clock, weather, image)[i]) is PartialUpdate ==> {
                let area = screen_update(request, clock, weather, image)[i]->PartialUpdate_0;
                is_update_area(area) && area.within(panel_area()) && area.width > 0 && area.height
                    > 0
            },
{
}

/// Where the controller stands within a refresh cycle.
#[derive(Clone, Copy, PartialEq, Eq, Structural, Debug)]
pub enum Phase {
    /// Waiting for a request; the rail is free.
    Idle,
    /// The rail is taken.
    Awake,
    /// The panel is on and waits for its waveform.
    Configuring,
    /// The frame is being drawn.
    Drawing,
    /// The frame, or a part of it, has been committed.
    Committing,
    /// The panel is off again; the rail is still held.
    Asleep,
    /// The loop has ended for deep sleep.
    Terminated,
}

/// The phase that a step leads to, or `None` where the step is out of place.
pub open spec fn phase_after(phase: Phase, op: DisplayOp) -> Option<Phase> {
    match (phase, op) {
        (Phase::Idle, DisplayOp::Acquire) => Some(Phase::Awake),
        (Phase::Awake, DisplayOp::Enable) => Some(Phase::Configuring),
        (Phase::Configuring, DisplayOp::Setup(_)) => Some(Phase::Drawing),
        (Phase::Drawing, DisplayOp::Fill { .. }) => Some(Phase::Drawing),
        (Phase::Drawing, DisplayOp::Weather { .. }) => Some(Phase::Drawing),
        (Phase::Drawing, DisplayOp::Clock { .. }) => Some(Phase::Drawing),
        (Phase::Drawing, DisplayOp::Bitmap { .. }) => Some(Phase::Drawing),
        (Phase::Drawing, DisplayOp::Update) => Some(Phase::Committing),
        (Phase::Drawing, DisplayOp::PartialUpdate(_)) => Some(Phase::Committing),
        (Phase::Drawing, DisplayOp::Disable) => Some(Phase::Asleep),
        (Phase::Committing, DisplayOp::Disable) => Some(Phase::Asleep),
        (Phase::Asleep, DisplayOp::Release) => Some(Phase::Idle),
        (Phase::Idle, DisplayOp::Off) => Some(Phase::Terminated),
        (Phase::Terminated, DisplayOp::DeepSleep) => Some(Phase::Terminated),
        _ => None,
    }
}

/// The phase reached from `phase` by the first `count` steps of `ops`, or
/// `None` where one of them is out of place.
pub open spec fn phase_through(phase: Phase, ops: Seq<DisplayOp>, count: nat) -> Option<Phase>
    decreases count,
{
    if count == 0 {
        Some(phase)
    } else {
        match phase_through(phase, ops, (count - 1) as nat) {
            Some(reached) => phase_after(reached, ops[count - 1]),
            None => None,
        }
    }
}

impl Phase {
    /// The phase after `op`, or `None` where `op` is out of place in this phase.
    pub fn after(self, op: &DisplayOp) -> (next: Option<Phase>)
        ensures
            next == phase_after(self, *op),
    {
        match (self, op) {
            (Phase::Idle, DisplayOp::Acquire) => Some(Phase::Awake),
            (Phase::Awake, DisplayOp::Enable) => Some(Phase::Configuring),
            (Phase::Configuring, DisplayOp::Setup(_)) => Some(Phase::Drawing),
            (Phase::Drawing, DisplayOp::Fill { .. }) => Some(Phase::Drawing),
            (Phase::Drawing, DisplayOp::Weather { .. }) => Some(Phase::Drawing),
            (Phase::Drawing, DisplayOp::Clock { .. }) => Some(Phase::Drawing),
            (Phase::Drawing, DisplayOp::Bitmap { .. }) => Some(Phase::Drawing),
            (Phase::Drawing, DisplayOp::Update) => Some(Phase::Committing),
            (Phase::Drawing, DisplayOp::PartialUpdate(_)) => Some(Phase::Committing),
            (Phase::Drawing, DisplayOp::Disable) => Some(Phase::Asleep),
            (Phase::Committing, DisplayOp::Disable) => Some(Phase::Asleep),
            (Phase::Asleep, DisplayOp::Release) => Some(Phase::Idle),
            (Phase::Idle, DisplayOp::Off) => Some(Phase::Terminated),
            (Phase::Terminated, DisplayOp::DeepSleep) => Some(Phase::Terminated),
            _ => None,
        }
    }
}

/// The phase reached from `phase` by all of `ops`, checked step by step.
pub fn follow(phase: Phase, ops: &Vec<DisplayOp>) -> (reached: Option<Phase>)
    ensures
        reached == phase_through(phase, ops@, ops@.len()),
{
    let mut at = phase;
    let mut done: usize = 0;
    while done < ops.len()
        invariant
            done <= ops@.len(),
            phase_through(phase, ops@, done as nat) == Some(at),
        decreases ops@.len() - done,
    {
        match at.after(&ops[done]) {
            Some(next) => {
                at = next;
            },
            None => {
                proof {
                    lemma_out_of_place_stays(phase, ops@, (done + 1) as nat, ops@.len());
                }
                return None;
            },
        }
        done = done + 1;
    }
    Some(at)
}

/// Once a step is out of place, no later step puts the cycle right.
pub proof fn lemma_out_of_place_stays(phase: Phase, ops: Seq<DisplayOp>, count: nat, later: nat)
    requires
        count <= later,
        phase_through(phase, ops, count) is None,
    ensures
        phase_through(phase, ops, later) is None,
    decreases later,
{
    if count < later {
        lemma_out_of_place_stays(phase, ops, count, (later - 1) as nat);
    }
}

/// Whether the rail is held in a phase.
pub open spec fn holds_rail(phase: Phase) -> bool {
    phase != Phase::Idle && phase != Phase::Terminated
}

/// The phase in which a refresh cycle stands after `count` of its steps.
pub open spec fn phase_at(ops: Seq<DisplayOp>, count: nat) -> Phase {
    if count == 0 || count == ops.len() {
        Phase::Idle
    } else if count == 1 {
        Phase::Awake
    } else if count == 2 {
        Phase::Configuring
    } else if count == ops.len() - 1 {
        Phase::Asleep
    } else if ops[count - 1] is Update || ops[count - 1] is PartialUpdate {
        Phase::Committing
    } else {
        Phase::Drawing
    }
}

/// A refresh cycle walks the phases in order: no step is out of place, and
/// after `count` steps the cycle stands in `phase_at`.
pub proof fn lemma_refresh_cycle_phases(
    request: Screen,
    clock: Option<DateTime>,
    weather: Option<CurrentWeather>,
    image: usize,
    count: nat,
)
    requires
        count <= screen_update(request, clock, weather, image).len(),
    ensures
        phase_through(Phase::Idle, screen_update(request, clock, weather, image), count) == Some(
            phase_at(screen_update(request, clock, weather, image), count),
        ),
    decreases count,
{
    let ops = screen_update(request, clock, weather, image);
    let drawn = draw_ops(request, clock, weather, image);
    if count > 0 {
        lemma_refresh_cycle_phases(request, clock, weather, image, (count - 1) as nat);
        let step = ops[count - 1];
        assert(ops.len() == drawn.len() + 5);
        if count == 1 {
            assert(step == DisplayOp::Acquire);
        } else if count == 2 {
            assert(step == DisplayOp::Enable);
        } else if count == 3 {
            assert(step == DisplayOp::Setup(waveform_for(request)));
        } else if count == ops.len() {
            assert(step == DisplayOp::Release);
        } else if count == ops.len() - 1 {
            assert(step == DisplayOp::Disable);
            if drawn.len() > 0 {
                assert(ops[count - 2] == drawn[drawn.len() - 1]);
            }
        } else {
            assert(step == drawn[count - 4]);
            assert(ops[count - 2] == if count == 4 {
                DisplayOp::Setup(waveform_for(request))
            } else {
                drawn[count - 5]
            });
            lemma_drawn_shape(request, clock, weather, image);
        }
    }
}

/// What a request draws is a run of drawing steps, closed by at most one
/// commit.
pub proof fn lemma_drawn_shape(
    request: Screen,
    clock: Option<DateTime>,
    weather: Option<CurrentWeather>,
    image: usize,
)
    ensures
        forall|i: int|
            0 <= i < draw_ops(request, clock, weather, image).len() - 1 ==> is_drawing(
                #[trigger] draw_ops(request, clock, weather, image)[i],
            ),
        draw_ops(request, clock, weather, image).len() > 0 ==> {
            let closing = draw_ops(request, clock, weather, image).last();
            closing is Update || closing is PartialUpdate
        },
{
}

/// A refresh cycle is gated by the rail for its whole duration: it starts and
/// ends at rest, and after its first step and before its last the rail is held.
pub proof fn lemma_refresh_cycle_is_gated(
    request: Screen,
    clock: Option<DateTime>,
    weather: Option<CurrentWeather>,
    image: usize,
)
    ensures
        ({
            let ops = screen_update(request, clock, weather, image);
            &&& phase_through(Phase::Idle, ops, ops.len()) == Some(Phase::Idle)
            &&& forall|count: nat|
                0 < count < ops.len() ==> {
                    &&& (#[trigger] phase_through(Phase::Idle, ops, count)) is Some
                    &&& holds_rail(phase_through(Phase::Idle, ops, count).unwrap())
                }
        }),
{
    let ops = screen_update(request, clock, weather, image);
    lemma_refresh_cycle_phases(request, clock, weather, image, ops.len());
    assert forall|count: nat| 0 < count < ops.len() implies {
        &&& (#[trigger] phase_through(Phase::Idle, ops, count)) is Some
        &&& holds_rail(phase_through(Phase::Idle, ops, count).unwrap())
    } by {
        lemma_refresh_cycle_phases(request, clock, weather, image, count);
    }
}

/// What ends the controller's wait: a request from the signal, or the idle
/// timer; whichever comes first.
#[derive(Clone, Copy, PartialEq, Eq, Structural, Debug)]
pub enum Wake {
    Request(Screen),
    IdleTimeout,
}

/// The steps that power the panel down for deep sleep.
pub open spec fn shutdown_ops() -> Seq<DisplayOp> {
    seq![DisplayOp::Off, DisplayOp::DeepSleep]
}

/// The steps that answer a wake-up: nothing once the loop has ended; the
/// power-down for `Shutdown`; a refresh cycle for any other request; and a full
/// refresh cycle when the idle timer ran out first.
pub open spec fn wake_ops(
    terminated: bool,
    wake: Wake,
    clock: Option<DateTime>,
    weather: Option<CurrentWeather>,
    image: usize,
) -> Seq<DisplayOp> {
    if terminated {
        Seq::empty()
    } else {
        match wake {
            Wake::Request(Screen::Shutdown) => shutdown_ops(),
            Wake::Request(request) => screen_update(request, clock, weather, image),
            Wake::IdleTimeout => screen_update(Screen::Full, clock, weather, image),
        }
    }
}

/// The refresh loop between two waits.
#[derive(Clone, Copy, PartialEq, Eq, Structural, Debug)]
pub struct Controller {
    /// Set by `Shutdown`; from then on nothing is drawn and nothing is waited for.
    pub terminated: bool,
}

impl Controller {
    /// A controller at rest, ready for its first request.
    pub fn new() -> (controller: Controller)
        ensures
            !controller.terminated,
    {
        Controller { terminated: false }
    }

    /// Whether the loop has ended.
    pub fn is_terminated(&self) -> (ended: bool)
        ensures
            ended == self.terminated,
    {
        self.terminated
    }

    /// Answers one wake-up with the steps to perform on the panel, and ends the
    /// loop on `Shutdown`.
    pub fn on_wake(
        &mut self,
        wake: Wake,
        clock: Option<DateTime>,
        weather: Option<CurrentWeather>,
        image: usize,
    ) -> (ops: Vec<DisplayOp>)
        ensures
            ops@ == wake_ops(old(self).terminated, wake, clock, weather, image),
            final(self).terminated == (old(self).terminated || wake == Wake::Request(
                Screen::Shutdown,
            )),
    {
        if self.terminated {
            return Vec::new();
        }
        match wake {
            Wake::Request(Screen::Shutdown) => {
                self.terminated = true;
                let mut ops: Vec<DisplayOp> = Vec::new();
                ops.push(DisplayOp::Off);
                ops.push(DisplayOp::DeepSleep);
                assert(ops@ =~= shutdown_ops());
                ops
            },
            Wake::Request(request) => update_screen(request, clock, weather, image),
            Wake::IdleTimeout => update_screen(Screen::Full, clock, weather, image),
        }
    }
}

/// The power-down leaves the loop terminated, and no step is accepted after it
/// but the deep-sleep command.
pub proof fn lemma_shutdown_terminates()
    ensures
        phase_through(Phase::Idle, shutdown_ops(), 2) == Some(Phase::Terminated),
        forall|op: DisplayOp|
            (#[trigger] phase_after(Phase::Terminated, op)) is Some ==> op == DisplayOp::DeepSleep,
{
    reveal_with_fuel(phase_through, 3);
}

} // verus!
