//! The user's extraction settings: swatch theme, clustering algorithm and
//! the downsampling bound applied before clustering.
use vstd::prelude::*;

verus! {

/// Which theme selects the swatches; `Default` picks them by prominence only.
#[derive(Clone, Copy, Debug, PartialEq, Eq, Structural)]
pub enum ThemeChoice {
    Default,
    Colorful,
    Vivid,
    Muted,
    Light,
    Dark,
}

/// Which clustering algorithm groups the pixels.
#[derive(Clone, Copy, Debug, PartialEq, Eq, Structural)]
pub enum AlgorithmChoice {
    DBSCANpp,
    DBSCAN,
    KMeans,
}

/// The longest edge, in pixels, that an image is shrunk to before clustering.
#[derive(Clone, Copy, Debug, PartialEq, Eq, Structural)]
pub enum Downsample {
    Off,
    Px1024,
    Px1600,
    Px2048,
}

/// The text shown for a theme.
pub open spec fn theme_label(t: ThemeChoice) -> Seq<char> {
    match t {
        ThemeChoice::Default => "Default"@,
        ThemeChoice::Colorful => "Colorful"@,
        ThemeChoice::Vivid => "Vivid"@,
        ThemeChoice::Muted => "Muted"@,
        ThemeChoice::Light => "Light"@,
        ThemeChoice::Dark => "Dark"@,
    }
}

/// The text shown for an algorithm.
pub open spec fn algorithm_label(a: AlgorithmChoice) -> Seq<char> {
    match a {
        AlgorithmChoice::DBSCANpp => "DBSCAN++ (fast)"@,
        AlgorithmChoice::DBSCAN => "DBSCAN (accurate)"@,
        AlgorithmChoice::KMeans => "K-Means (fastest)"@,
    }
}

/// The text shown for a downsampling bound.
pub open spec fn downsample_label(d: Downsample) -> Seq<char> {
    match d {
        Downsample::Off => "Off (full res)"@,
        Downsample::Px1024 => "1024px"@,
        Downsample::Px1600 => "1600px"@,
        Downsample::Px2048 => "2048px"@,
    }
}

/// The longest edge that a downsampling setting allows; `None` keeps full resolution.
pub open spec fn edge_limit(d: Downsample) -> Option<u32> {
    match d {
        Downsample::Off => None,
        Downsample::Px1024 => Some(1024u32),
        Downsample::Px1600 => Some(1600u32),
        Downsample::Px2048 => Some(2048u32),
    }
}

impl ThemeChoice {
    /// Every theme, in the order the theme menu lists them.
    pub fn all() -> (v: Vec<ThemeChoice>)
        ensures
            v@ == seq![
                ThemeChoice::Default,
                ThemeChoice::Colorful,
                ThemeChoice::Vivid,
                ThemeChoice::Muted,
                ThemeChoice::Light,
                ThemeChoice::Dark,
            ],
    {
        let v = vec![
            ThemeChoice::Default,
            ThemeChoice::Colorful,
            ThemeChoice::Vivid,
            ThemeChoice::Muted,
            ThemeChoice::Light,
            ThemeChoice::Dark,
        ];
        assert(v@ =~= seq![
            ThemeChoice::Default,
            ThemeChoice::Colorful,
            ThemeChoice::Vivid,
            ThemeChoice::Muted,
            ThemeChoice::Light,
            ThemeChoice::Dark,
        ]);
        v
    }

    /// The text shown for this theme.
    pub fn label(self) -> (s: &'static str)
        ensures
            s@ == theme_label(self),
    {
        match self {
            ThemeChoice::Default => "Default",
            ThemeChoice::Colorful => "Colorful",
            ThemeChoice::Vivid => "Vivid",
            ThemeChoice::Muted => "Muted",
            ThemeChoice::Light => "Light",
            ThemeChoice::Dark => "Dark",
        }
    }
}

/// A theme that swatches can be selected by.
#[derive(Clone, Copy, Debug, PartialEq, Eq, Structural)]
pub enum ThemeKind {
    Colorful,
    Vivid,
    Muted,
    Light,
    Dark,
}

/// How swatches are selected from a palette: by prominence, or by a theme.
#[derive(Clone, Copy, Debug, PartialEq, Eq, Structural)]
pub enum SwatchFinder {
    Prominence,
    Themed(ThemeKind),
}

/// The selection a theme setting calls for: `Default` selects by prominence,
/// every other setting by the theme of the same name.
pub open spec fn finder_for(t: ThemeChoice) -> SwatchFinder {
    match t {
        ThemeChoice::Default => SwatchFinder::Prominence,
        ThemeChoice::Colorful => SwatchFinder::Themed(ThemeKind::Colorful),
        ThemeChoice::Vivid => SwatchFinder::Themed(ThemeKind::Vivid),
        ThemeChoice::Muted => SwatchFinder::Themed(ThemeKind::Muted),
        ThemeChoice::Light => SwatchFinder::Themed(ThemeKind::Light),
        ThemeChoice::Dark => SwatchFinder::Themed(ThemeKind::Dark),
    }
}

impl ThemeChoice {
    /// How swatches are selected under this theme setting.
    pub fn finder(self) -> (f: SwatchFinder)
        ensures
            f == finder_for(self),
    {
        match self {
            ThemeChoice::Default => SwatchFinder::Prominence,
            ThemeChoice::Colorful => SwatchFinder::Themed(ThemeKind::Colorful),
            ThemeChoice::Vivid => SwatchFinder::Themed(ThemeKind::Vivid),
            ThemeChoice::Muted => SwatchFinder::Themed(ThemeKind::Muted),
            ThemeChoice::Light => SwatchFinder::Themed(ThemeKind::Light),
            ThemeChoice::Dark => SwatchFinder::Themed(ThemeKind::Dark),
        }
    }
}

impl Default for ThemeChoice {
    fn default() -> (t: Self)
        ensures
            t == ThemeChoice::Default,
    {
        ThemeChoice::Default
    }
}

impl AlgorithmChoice {
    /// Every algorithm, in the order the algorithm menu lists them.
    pub fn all() -> (v: Vec<AlgorithmChoice>)
        ensures
            v@ == seq![AlgorithmChoice::DBSCANpp, AlgorithmChoice::DBSCAN, AlgorithmChoice::KMeans],
    {
        let v = vec![AlgorithmChoice::DBSCANpp, AlgorithmChoice::DBSCAN, AlgorithmChoice::KMeans];
        assert(v@ =~= seq![
            AlgorithmChoice::DBSCANpp,
            AlgorithmChoice::DBSCAN,
            AlgorithmChoice::KMeans,
        ]);
        v
    }

    /// The text shown for this algorithm.
    pub fn label(self) -> (s: &'static str)
        ensures
            s@ == algorithm_label(self),
    {
        match self {
            AlgorithmChoice::DBSCANpp => "DBSCAN++ (fast)",
            AlgorithmChoice::DBSCAN => "DBSCAN (accurate)",
            AlgorithmChoice::KMeans => "K-Means (fastest)",
        }
    }
}

impl Default for AlgorithmChoice {
    fn default() -> (a: Self)
        ensures
            a == AlgorithmChoice::DBSCANpp,
    {
        AlgorithmChoice::DBSCANpp
    }
}

impl Downsample {
    /// Every downsampling setting, in the order the menu lists them.
    pub fn all() -> (v: Vec<Downsample>)
        ensures
            v@ == seq![Downsample::Px1024, Downsample::Px1600, Downsample::Px2048, Downsample::Off],
    {
        let v = vec![Downsample::Px1024, Downsample::Px1600, Downsample::Px2048, Downsample::Off];
        assert(v@ =~= seq![
            Downsample::Px1024,
            Downsample::Px1600,
            Downsample::Px2048,
            Downsample::Off,
        ]);
        v
    }

    /// The text shown for this setting.
    pub fn label(self) -> (s: &'static str)
        ensures
            s@ == downsample_label(self),
    {
        match self {
            Downsample::Off => "Off (full res)",
            Downsample::Px1024 => "1024px",
            Downsample::Px1600 => "1600px",
            Downsample::Px2048 => "2048px",
        }
    }

    /// The longest edge this setting allows; `None` when images keep full resolution.
    pub fn max_edge(self) -> (m: Option<u32>)
        ensures
            m == edge_limit(self),
    {
        match self {
            Downsample::Off => None,
            Downsample::Px1024 => Some(1024),
            Downsample::Px1600 => Some(1600),
            Downsample::Px2048 => Some(2048),
        }
    }
}

impl Default for Downsample {
    fn default() -> (d: Self)
        ensures
            d == Downsample::Px1600,
    {
        Downsample::Px1600
    }
}

/// Only the `Default` theme selects swatches by prominence, and distinct
/// theme settings select by distinct finders.
pub proof fn lemma_finder_distinct()
    ensures
        forall|t: ThemeChoice| (finder_for(t) is Prominence) <==> t == ThemeChoice::Default,
        forall|a: ThemeChoice, b: ThemeChoice| a != b ==> finder_for(a) != finder_for(b),
{
}

/// Each menu shows every choice under a text of its own: distinct themes,
/// algorithms and downsampling settings have distinct labels.
pub proof fn lemma_labels_distinct()
    ensures
        forall|a: ThemeChoice, b: ThemeChoice| a != b ==> theme_label(a) != theme_label(b),
        forall|a: AlgorithmChoice, b: AlgorithmChoice|
            a != b ==> algorithm_label(a) != algorithm_label(b),
        forall|a: Downsample, b: Downsample| a != b ==> downsample_label(a) != downsample_label(b),
{
    reveal_strlit("Default");
    reveal_strlit("Colorful");
    reveal_strlit("Vivid");
    reveal_strlit("Muted");
    reveal_strlit("Light");
    reveal_strlit("Dark");
    reveal_strlit("DBSCAN++ (fast)");
    reveal_strlit("DBSCAN (accurate)");
    reveal_strlit("K-Means (fastest)");
    reveal_strlit("Off (full res)");
    reveal_strlit("1024px");
    reveal_strlit("1600px");
    reveal_strlit("2048px");
    assert("Default"@[0] != "Colorful"@[0]);
    assert("Default"@[0] != "Vivid"@[0]);
    assert("Default"@[0] != "Muted"@[0]);
    assert("Default"@[0] != "Light"@[0]);
    assert("Default"@[1] != "Dark"@[1]);
    assert("Colorful"@[0] != "Vivid"@[0]);
    assert("Colorful"@[0] != "Muted"@[0]);
    assert("Colorful"@[0] != "Light"@[0]);
    assert("Colorful"@[0] != "Dark"@[0]);
    assert("Vivid"@[0] != "Muted"@[0]);
    assert("Vivid"@[0] != "Light"@[0]);
    assert("Vivid"@[0] != "Dark"@[0]);
    assert("Muted"@[0] != "Light"@[0]);
    assert("Muted"@[0] != "Dark"@[0]);
    assert("Light"@[0] != "Dark"@[0]);
    assert("DBSCAN++ (fast)"@[6] != "DBSCAN (accurate)"@[6]);
    assert("DBSCAN++ (fast)"@[0] != "K-Means (fastest)"@[0]);
    assert("DBSCAN (accurate)"@[0] != "K-Means (fastest)"@[0]);
    assert("Off (full res)"@[0] != "1024px"@[0]);
    assert("Off (full res)"@[0] != "1600px"@[0]);
    assert("Off (full res)"@[0] != "2048px"@[0]);
    assert("1024px"@[0] != "2048px"@[0]);
    assert("1024px"@[1] != "1600px"@[1]);
    assert("1600px"@[0] != "2048px"@[0]);
}


} // verus!
