use vstd::prelude::*;
use crate::data::{Dataset, ParentData};
use crate::palette::{palette99_rgb, palette_pick_rgb};

verus! {

/// Why a dataset cannot be rendered.
#[derive(Clone, Copy, Debug, PartialEq, Eq, Structural)]
pub enum DataError {
    /// A series has no samples, so no line can be drawn through it.
    EmptySeries,
    /// A sample's frequency is zero, outside the domain of the
    /// logarithmic x axis.
    NonPositiveFrequency,
}

/// Overall pixel width of the drawing surface.
pub const CHART_WIDTH: u32 = 1024;

/// Overall pixel height of the drawing surface.
pub const CHART_HEIGHT: u32 = 768;

/// The surface is split at this y pixel: chart above, title strip below.
pub const SPLIT_Y: u32 = 750;

/// Font size of the title in the lower strip.
pub const TITLE_FONT_SIZE: u32 = 10;

/// Opacity of the title colour, in percent of full black.
pub const TITLE_COLOR_MIX_PERCENT: u32 = 50;

/// Caption height, in percent of the chart height.
pub const CAPTION_HEIGHT_PERCENT: u32 = 5;

/// Width reserved for the y-axis labels, in percent.
pub const LEFT_LABEL_PERCENT: u32 = 8;

/// Height reserved for the x-axis labels, in percent.
pub const BOTTOM_LABEL_PERCENT: u32 = 4;

/// Outer margin around the chart, in percent.
pub const MARGIN_PERCENT: u32 = 1;

/// Lower bound of the logarithmic x axis.
pub const X_MIN: u32 = 1;

/// Upper bound of the logarithmic x axis.
pub const X_MAX: u32 = 10_000;

/// Lower bound of the linear y axis.
pub const Y_MIN: u32 = 0;

/// Upper bound (exclusive) of the linear y axis.
pub const Y_MAX: u32 = 101;

/// Opacity of each line colour, in percent.
pub const SERIES_COLOR_MIX_PERCENT: u32 = 90;

/// Stroke width of each line, in pixels.
pub const STROKE_WIDTH: u32 = 3;

/// What a series fails on, checked in order: first that it has samples at
/// all, then that every frequency fits the logarithmic axis.
pub open spec fn series_fault(p: ParentData) -> Option<DataError> {
    if p.data@.len() == 0 {
        Some(DataError::EmptySeries)
    } else if exists|i: int| 0 <= i < p.data@.len() && (#[trigger] p.data@[i]).freq == 0 {
        Some(DataError::NonPositiveFrequency)
    } else {
        None
    }
}

/// The fault of the first faulty series at position `k` or later.
pub open spec fn first_fault_from(entries: Seq<(String, ParentData)>, k: int) -> Option<
    DataError,
>
    decreases entries.len() - k,
{
    if k < 0 || k >= entries.len() {
        None
    } else if series_fault(entries[k].1) is Some {
        series_fault(entries[k].1)
    } else {
        first_fault_from(entries, k + 1)
    }
}

/// The fault the dataset is rejected for: that of its first faulty series.
pub open spec fn dataset_fault(d: Dataset) -> Option<DataError> {
    first_fault_from(d.entries@, 0)
}

/// A series passes the per-series check exactly when it is drawable.
pub proof fn lemma_series_fault_none_iff_valid(p: ParentData)
    ensures
        series_fault(p) is None <==> p.valid(),
{
}

proof fn lemma_first_fault_from_none(entries: Seq<(String, ParentData)>, k: int)
    requires
        0 <= k <= entries.len(),
    ensures
        first_fault_from(entries, k) is None <==> (forall|m: int|
            k <= m < entries.len() ==> series_fault((#[trigger] entries[m]).1) is None),
    decreases entries.len() - k,
{
    if k < entries.len() {
        lemma_first_fault_from_none(entries, k + 1);
    }
}

/// A dataset passes validation exactly when every one of its series is
/// drawable: at least one sample each, every frequency positive.
pub proof fn lemma_valid_iff_no_fault(d: Dataset)
    ensures
        dataset_fault(d) is None <==> d.valid(),
{
    lemma_first_fault_from_none(d.entries@, 0);
}

/// The plotted points of one series, in sample order: each sample's
/// frequency paired with its gain.
pub open spec fn point_seq(s: ParentData) -> Seq<(u32, u32)> {
    Seq::new(s.data@.len(), |j: int| (s.data@[j].freq, s.data@[j].gain))
}

/// The mathematical content of one planned line.
#[verifier::ext_equal]
pub struct SeriesView {
    pub label: Seq<char>,
    pub color: (u8, u8, u8),
    pub color_mix_percent: u32,
    pub stroke_width: u32,
    pub points: Seq<(u32, u32)>,
}

/// The mathematical content of a whole render plan.
#[verifier::ext_equal]
pub struct PlanView {
    pub width: u32,
    pub height: u32,
    pub split_y: u32,
    pub title_font_size: u32,
    pub title_color_mix_percent: u32,
    pub caption_height_percent: u32,
    pub left_label_percent: u32,
    pub bottom_label_percent: u32,
    pub margin_percent: u32,
    pub x_min: u32,
    pub x_max: u32,
    pub x_key_points: Seq<u32>,
    pub y_min: u32,
    pub y_max: u32,
    pub y_key_points: Seq<u32>,
    pub series: Seq<SeriesView>,
}

/// One planned line: its legend label, its colour and stroke, and the
/// points the line passes through, left to right.
pub struct SeriesPlan {
    pub label: String,
    pub color: (u8, u8, u8),
    pub color_mix_percent: u32,
    pub stroke_width: u32,
    pub points: Vec<(u32, u32)>,
}

impl View for SeriesPlan {
    type V = SeriesView;

    open spec fn view(&self) -> SeriesView {
        SeriesView {
            label: self.label@,
            color: self.color,
            color_mix_percent: self.color_mix_percent,
            stroke_width: self.stroke_width,
            points: self.points@,
        }
    }
}

/// Everything a rendering backend needs to draw the chart: the fixed
/// surface and axis configuration, and one planned line per series.
pub struct RenderPlan {
    pub width: u32,
    pub height: u32,
    pub split_y: u32,
    pub title_font_size: u32,
    pub title_color_mix_percent: u32,
    pub caption_height_percent: u32,
    pub left_label_percent: u32,
    pub bottom_label_percent: u32,
    pub margin_percent: u32,
    pub x_min: u32,
    pub x_max: u32,
    pub x_key_points: Vec<u32>,
    pub y_min: u32,
    pub y_max: u32,
    pub y_key_points: Vec<u32>,
    pub series: Vec<SeriesPlan>,
}

impl View for RenderPlan {
    type V = PlanView;

    open spec fn view(&self) -> PlanView {
        PlanView {
            width: self.width,
            height: self.height,
            split_y: self.split_y,
            title_font_size: self.title_font_size,
            title_color_mix_percent: self.title_color_mix_percent,
            caption_height_percent: self.caption_height_percent,
            left_label_percent: self.left_label_percent,
            bottom_label_percent: self.bottom_label_percent,
            margin_percent: self.margin_percent,
            x_min: self.x_min,
            x_max: self.x_max,
            x_key_points: self.x_key_points@,
            y_min: self.y_min,
            y_max: self.y_max,
            y_key_points: self.y_key_points@,
            series: self.series@.map_values(|sp: SeriesPlan| sp@),
        }
    }
}

/// The plan of one series standing at position `idx` of the dataset: its
/// name as the label, the palette colour of `idx`, and its sample points.
pub open spec fn series_view_of(e: (String, ParentData), idx: int) -> SeriesView {
    SeriesView {
        label: e.0@,
        color: palette99_rgb(idx % 21),
        color_mix_percent: SERIES_COLOR_MIX_PERCENT,
        stroke_width: STROKE_WIDTH,
        points: point_seq(e.1),
    }
}

/// The one plan of a dataset: the fixed chart configuration, and each
/// series planned in dataset order under its position's palette colour.
pub open spec fn plan_of(d: Dataset) -> PlanView {
    PlanView {
        width: CHART_WIDTH,
        height: CHART_HEIGHT,
        split_y: SPLIT_Y,
        title_font_size: TITLE_FONT_SIZE,
        title_color_mix_percent: TITLE_COLOR_MIX_PERCENT,
        caption_height_percent: CAPTION_HEIGHT_PERCENT,
        left_label_percent: LEFT_LABEL_PERCENT,
        bottom_label_percent: BOTTOM_LABEL_PERCENT,
        margin_percent: MARGIN_PERCENT,
        x_min: X_MIN,
        x_max: X_MAX,
        x_key_points: seq![1u32, 10u32, 100u32, 1000u32, 10000u32],
        y_min: Y_MIN,
        y_max: Y_MAX,
        y_key_points: seq![0u32, 20u32, 40u32, 60u32, 80u32, 100u32],
        series: Seq::new(d.entries@.len(), |i: int| series_view_of(d.entries@[i], i)),
    }
}

/// The points of one line, or the series' fault.
fn series_line(s: &ParentData) -> (r: Result<Vec<(u32, u32)>, DataError>)
    ensures
        r is Ok ==> series_fault(*s) is None && (r->Ok_0)@ == point_seq(*s),
        r is Err ==> series_fault(*s) == Some(r->Err_0),
{
    if s.data.len() == 0 {
        return Err(DataError::EmptySeries);
    }
    let mut pts: Vec<(u32, u32)> = Vec::new();
    let mut j: usize = 0;
    while j < s.data.len()
        invariant
            j <= s.data@.len(),
            s.data@.len() >= 1,
            pts@.len() == j,
            forall|l: int| 0 <= l < j ==> #[trigger] pts@[l] == ((s.data@[l].freq, s.data@[l].gain)),
            forall|l: int| 0 <= l < j ==> (#[trigger] s.data@[l]).freq != 0,
        decreases s.data@.len() - j,
    {
        let c = &s.data[j];
        if c.freq == 0 {
            proof {
                assert(0 <= j < s.data@.len() && s.data@[j as int].freq == 0);
            }
            return Err(DataError::NonPositiveFrequency);
        }
        pts.push((c.freq, c.gain));
        j += 1;
    }
    proof {
        assert(pts@ =~= point_seq(*s));
    }
    Ok(pts)
}

proof fn lemma_first_fault_prefix(entries: Seq<(String, ParentData)>, i: int)
    requires
        0 <= i <= entries.len(),
        forall|k: int| 0 <= k < i ==> series_fault((#[trigger] entries[k]).1) is None,
    ensures
        first_fault_from(entries, 0) == first_fault_from(entries, i),
    decreases i,
{
    if i > 0 {
        lemma_first_fault_prefix(entries, i - 1);
        assert(first_fault_from(entries, i - 1) == first_fault_from(entries, i));
    }
}

/// Builds the render plan of a dataset, or rejects the dataset for the
/// fault of its first faulty series. On success the plan is the one plan
/// of the dataset, nothing chosen freely; the first two lines carry the
/// first two palette colours, which differ.
pub fn plan(d: &Dataset) -> (r: Result<RenderPlan, DataError>)
    ensures
        r is Ok <==> dataset_fault(*d) is None,
        r is Err ==> dataset_fault(*d) == Some(r->Err_0),
        r is Ok ==> (r->Ok_0)@ == plan_of(*d),
        r is Ok && d.entries@.len() >= 1 ==> (r->Ok_0).series@[0].color == ((230u8, 25u8, 75u8)),
        r is Ok && d.entries@.len() >= 2 ==> (r->Ok_0).series@[1].color == ((60u8, 180u8, 75u8)),
{
    let mut series: Vec<SeriesPlan> = Vec::new();
    let mut i: usize = 0;
    while i < d.entries.len()
        invariant
            i <= d.entries@.len(),
            series@.len() == i,
            forall|k: int| 0 <= k < i ==> #[trigger] series@[k]@ == series_view_of(
                d.entries@[k],
                k,
            ),
            forall|k: int| 0 <= k < i ==> series_fault((#[trigger] d.entries@[k]).1) is None,
            i >= 1 ==> series@[0].color == ((230u8, 25u8, 75u8)),
            i >= 2 ==> series@[1].color == ((60u8, 180u8, 75u8)),
        decreases d.entries@.len() - i,
    {
        let e = &d.entries[i];
        let pts = match series_line(&e.1) {
            Ok(p) => p,
            Err(err) => {
                proof {
                    lemma_first_fault_prefix(d.entries@, i as int);
                }
                return Err(err);
            },
        };
        let color = palette_pick_rgb(i);
        let sp = SeriesPlan {
            label: e.0.clone(),
            color,
            color_mix_percent: SERIES_COLOR_MIX_PERCENT,
            stroke_width: STROKE_WIDTH,
            points: pts,
        };
        proof {
            assert(sp@ =~= series_view_of(d.entries@[i as int], i as int));
        }
        series.push(sp);
        i += 1;
    }
    proof {
        lemma_first_fault_prefix(d.entries@, d.entries@.len() as int);
    }
    let rp = RenderPlan {
        width: CHART_WIDTH,
        height: CHART_HEIGHT,
        split_y: SPLIT_Y,
        title_font_size: TITLE_FONT_SIZE,
        title_color_mix_percent: TITLE_COLOR_MIX_PERCENT,
        caption_height_percent: CAPTION_HEIGHT_PERCENT,
        left_label_percent: LEFT_LABEL_PERCENT,
        bottom_label_percent: BOTTOM_LABEL_PERCENT,
        margin_percent: MARGIN_PERCENT,
        x_min: X_MIN,
        x_max: X_MAX,
        x_key_points: vec![1u32, 10u32, 100u32, 1000u32, 10000u32],
        y_min: Y_MIN,
        y_max: Y_MAX,
        y_key_points: vec![0u32, 20u32, 40u32, 60u32, 80u32, 100u32],
        series,
    };
    proof {
        assert(rp@.x_key_points =~= plan_of(*d).x_key_points);
        assert(rp@.y_key_points =~= plan_of(*d).y_key_points);
        assert(rp@.series =~= plan_of(*d).series);
        assert(rp@ =~~= plan_of(*d));
    }
    Ok(rp)
}

/// Rebuilding the plan of one dataset can only give the same plan again:
/// the plan is a function of the dataset alone.
pub proof fn lemma_plan_deterministic(d: Dataset, p1: RenderPlan, p2: RenderPlan)
    requires
        p1@ == plan_of(d),
        p2@ == plan_of(d),
    ensures
        p1@ == p2@,
{
}

/// Legend labels are exactly the series names, so in a well-formed
/// dataset no two planned lines share a label.
pub proof fn lemma_plan_labels_unique(d: Dataset)
    requires
        d.wf(),
    ensures
        forall|i: int, j: int|
            0 <= i < j < plan_of(d).series.len() ==> plan_of(d).series[i].label != plan_of(
                d,
            ).series[j].label,
{
    assert forall|i: int, j: int|
        0 <= i < j < plan_of(d).series.len() implies plan_of(d).series[i].label != plan_of(
        d,
    ).series[j].label by {
        assert(plan_of(d).series[i].label == d.entries@[i].0@);
        assert(plan_of(d).series[j].label == d.entries@[j].0@);
    }
}

/// Corner points of a legend swatch anchored at `(x, y)`: a small filled
/// rectangle from `(x, y - 5)` to `(x + 10, y + 5)`.
pub fn legend_swatch(x: i32, y: i32) -> (r: ((i32, i32), (i32, i32)))
    requires
        x + 10 <= i32::MAX,
        i32::MIN <= y - 5,
        y + 5 <= i32::MAX,
    ensures
        r.0.0 == x,
        r.0.1 == y - 5,
        r.1.0 == x + 10,
        r.1.1 == y + 5,
{
    ((x, y - 5), (x + 10, y + 5))
}

} // verus!
