use vstd::prelude::*;
use vstd::string::StringExecFns;

verus! {

/// One measurement: a frequency (the x value, plotted on a logarithmic
/// axis), a gain (the y value, plotted on a linear axis) and a phase that
/// is carried but not rendered.
pub struct ChildData {
    pub freq: u32,
    pub gain: u32,
    pub phase: u32,
}

impl ChildData {
    /// A sample can be placed on the logarithmic x axis only when its
    /// frequency is positive.
    pub open spec fn valid(self) -> bool {
        self.freq >= 1
    }

    pub fn new(freq: u32, gain: u32, phase: u32) -> (r: Self)
        ensures
            r == (ChildData { freq, gain, phase }),
    {
        Self { freq, gain, phase }
    }
}

/// One series: the ordered samples of a single line of the chart, plotted
/// left to right in the order they are stored.
pub struct ParentData {
    pub data: Vec<ChildData>,
}

impl ParentData {
    /// A series can be drawn when it has at least one sample and every
    /// sample fits the logarithmic axis.
    pub open spec fn valid(self) -> bool {
        &&& self.data@.len() >= 1
        &&& forall|i: int| 0 <= i < self.data@.len() ==> (#[trigger] self.data@[i]).valid()
    }
}

/// The dataset: series in plotting order, each under its name. A name is
/// both the data key and the legend label, so no two series may share one.
pub struct Dataset {
    pub entries: Vec<(String, ParentData)>,
}

impl Dataset {
    /// Well-formed: series names are unique.
    pub open spec fn wf(self) -> bool {
        forall|i: int, j: int|
            0 <= i < j < self.entries@.len() ==> (#[trigger] self.entries@[i]).0@ != (
            #[trigger] self.entries@[j]).0@
    }

    /// Every series of the dataset can be drawn.
    pub open spec fn valid(self) -> bool {
        forall|i: int|
            0 <= i < self.entries@.len() ==> (#[trigger] self.entries@[i]).1.valid()
    }
}

/// The fixed two-series dataset that the example plots, a stand-in for a
/// real data source: series "A" rising over three decades, series "B"
/// rising a little faster at the low end.
pub fn stub() -> (r: Dataset)
    ensures
        r.entries@.len() == 2,
        r.entries@[0].0@ == "A"@,
        r.entries@[1].0@ == "B"@,
        r.entries@[0].1.data@ == seq![
            (ChildData { freq: 1u32, gain: 1u32, phase: 1u32 }),
            (ChildData { freq: 10u32, gain: 10u32, phase: 10u32 }),
            (ChildData { freq: 10000u32, gain: 100u32, phase: 100u32 }),
        ],
        r.entries@[1].1.data@ == seq![
            (ChildData { freq: 1u32, gain: 1u32, phase: 1u32 }),
            (ChildData { freq: 20u32, gain: 20u32, phase: 20u32 }),
            (ChildData { freq: 10000u32, gain: 100u32, phase: 100u32 }),
        ],
        r.wf(),
        r.valid(),
{
    let a = ParentData {
        data: vec![
            ChildData::new(1, 1, 1),
            ChildData::new(10, 10, 10),
            ChildData::new(10_000, 100, 100),
        ],
    };
    let b = ParentData {
        data: vec![
            ChildData::new(1, 1, 1),
            ChildData::new(20, 20, 20),
            ChildData::new(10_000, 100, 100),
        ],
    };
    let entries: Vec<(String, ParentData)> = vec![
        (String::from_str("A"), a),
        (String::from_str("B"), b),
    ];
    proof {
        reveal_strlit("A");
        reveal_strlit("B");
        assert("A"@[0] == 'A' && "B"@[0] == 'B');
        assert("A"@ != "B"@);
    }
    Dataset { entries }
}

} // verus!
