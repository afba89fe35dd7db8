//! The command palette: the catalog of commands, the fuzzy matcher that
//! scores them against a query, and the palette's selection state.
//!
//! Scores are exact integers in units of 2^-20: a score of `s` units stands
//! for the value `s / 2^20`, so the tiers 100, 95, 90, 85, 30 and 1 are
//! `100 * SCORE_UNIT` and so on, and fuzzy scores keep 20 fractional bits.

use vstd::prelude::*;
use vstd::string::*;
use crate::types::{ColorMode, FractalType, ShadingModel};
use crate::lod::LODProfile;
use crate::text::{byte_len, chars_of, contains_seq, is_prefix, lowercase, occurs_in, owned, seq_eq, starts_with, to_lower};

verus! {

/// One score unit: the value 1.0.
pub const SCORE_UNIT: u64 = 1048576;

/// Category of a command, for grouping and filtering.
#[derive(Debug, Clone, Copy, PartialEq, Eq, Structural)]
pub enum CommandCategory {
    Fractal,
    Preset,
    Effect,
    Color,
    Camera,
    Recording,
    LOD,
    UI,
    Settings,
    Debug,
}

impl CommandCategory {
    pub open spec fn spec_name(self) -> Seq<char> {
        match self {
            CommandCategory::Fractal => "Fractal"@,
            CommandCategory::Preset => "Preset"@,
            CommandCategory::Effect => "Effect"@,
            CommandCategory::Color => "Color"@,
            CommandCategory::Camera => "Camera"@,
            CommandCategory::Recording => "Recording"@,
            CommandCategory::LOD => "LOD"@,
            CommandCategory::UI => "UI"@,
            CommandCategory::Settings => "Settings"@,
            CommandCategory::Debug => "Debug"@,
        }
    }

    pub open spec fn spec_icon(self) -> Seq<char> {
        match self {
            CommandCategory::Fractal => "\u{1F537}"@,
            CommandCategory::Preset => "\u{1F4CB}"@,
            CommandCategory::Effect => "\u{2728}"@,
            CommandCategory::Color => "\u{1F3A8}"@,
            CommandCategory::Camera => "\u{1F4F7}"@,
            CommandCategory::Recording => "\u{1F3AC}"@,
            CommandCategory::LOD => "\u{26A1}"@,
            CommandCategory::UI => "\u{1F5A5}\u{FE0F}"@,
            CommandCategory::Settings => "\u{2699}\u{FE0F}"@,
            CommandCategory::Debug => "\u{1F50D}"@,
        }
    }

    /// The display name of the category.
    pub fn name(&self) -> (n: &'static str)
        ensures
            n@ == self.spec_name(),
    {
        match self {
            CommandCategory::Fractal => "Fractal",
            CommandCategory::Preset => "Preset",
            CommandCategory::Effect => "Effect",
            CommandCategory::Color => "Color",
            CommandCategory::Camera => "Camera",
            CommandCategory::Recording => "Recording",
            CommandCategory::LOD => "LOD",
            CommandCategory::UI => "UI",
            CommandCategory::Settings => "Settings",
            CommandCategory::Debug => "Debug",
        }
    }

    /// The icon shown beside the category.
    pub fn icon(&self) -> (n: &'static str)
        ensures
            n@ == self.spec_icon(),
    {
        match self {
            CommandCategory::Fractal => "\u{1F537}",
            CommandCategory::Preset => "\u{1F4CB}",
            CommandCategory::Effect => "\u{2728}",
            CommandCategory::Color => "\u{1F3A8}",
            CommandCategory::Camera => "\u{1F4F7}",
            CommandCategory::Recording => "\u{1F3AC}",
            CommandCategory::LOD => "\u{26A1}",
            CommandCategory::UI => "\u{1F5A5}\u{FE0F}",
            CommandCategory::Settings => "\u{2699}\u{FE0F}",
            CommandCategory::Debug => "\u{1F50D}",
        }
    }
}

/// Effects a command can toggle.
#[derive(Debug, Clone, Copy, PartialEq, Eq, Structural)]
pub enum EffectType {
    AmbientOcclusion,
    Shadows,
    SoftShadows,
    DepthOfField,
    Fog,
    Bloom,
    Vignette,
    FXAA,
    SSR,
}

/// Action executed when a command is triggered.
#[derive(Debug)]
pub enum CommandAction {
    SetFractalType(FractalType),
    LoadPreset(String),
    ToggleEffect(EffectType),
    SetColorMode(ColorMode),
    SetPalette(usize),
    SetShadowMode(u32),
    SetShadingModel(ShadingModel),
    SetLODProfile(LODProfile),
    ToggleLOD,
    ToggleLODDebug,
    ToggleUI,
    ToggleStats,
    ResetView,
    ResetAll,
    SavePreset,
    ExportSettings,
    ImportSettings,
    StartRecording(String),
    StopRecording,
    Screenshot,
    CycleTheme,
}

impl Clone for CommandAction {
    fn clone(&self) -> (r: Self)
        ensures
            r == *self,
    {
        match self {
            CommandAction::SetFractalType(t) => CommandAction::SetFractalType(*t),
            CommandAction::LoadPreset(s) => CommandAction::LoadPreset(s.clone()),
            CommandAction::ToggleEffect(e) => CommandAction::ToggleEffect(*e),
            CommandAction::SetColorMode(m) => CommandAction::SetColorMode(*m),
            CommandAction::SetPalette(i) => CommandAction::SetPalette(*i),
            CommandAction::SetShadowMode(m) => CommandAction::SetShadowMode(*m),
            CommandAction::SetShadingModel(m) => CommandAction::SetShadingModel(*m),
            CommandAction::SetLODProfile(p) => CommandAction::SetLODProfile(*p),
            CommandAction::ToggleLOD => CommandAction::ToggleLOD,
            CommandAction::ToggleLODDebug => CommandAction::ToggleLODDebug,
            CommandAction::ToggleUI => CommandAction::ToggleUI,
            CommandAction::ToggleStats => CommandAction::ToggleStats,
            CommandAction::ResetView => CommandAction::ResetView,
            CommandAction::ResetAll => CommandAction::ResetAll,
            CommandAction::SavePreset => CommandAction::SavePreset,
            CommandAction::ExportSettings => CommandAction::ExportSettings,
            CommandAction::ImportSettings => CommandAction::ImportSettings,
            CommandAction::StartRecording(s) => CommandAction::StartRecording(s.clone()),
            CommandAction::StopRecording => CommandAction::StopRecording,
            CommandAction::Screenshot => CommandAction::Screenshot,
            CommandAction::CycleTheme => CommandAction::CycleTheme,
        }
    }
}

/// A command's action, its texts as characters.
pub enum CommandActionView {
    SetFractalType(FractalType),
    LoadPreset(Seq<char>),
    ToggleEffect(EffectType),
    SetColorMode(ColorMode),
    SetPalette(usize),
    SetShadowMode(u32),
    SetShadingModel(ShadingModel),
    SetLODProfile(LODProfile),
    ToggleLOD,
    ToggleLODDebug,
    ToggleUI,
    ToggleStats,
    ResetView,
    ResetAll,
    SavePreset,
    ExportSettings,
    ImportSettings,
    StartRecording(Seq<char>),
    StopRecording,
    Screenshot,
    CycleTheme,
}

impl View for CommandAction {
    type V = CommandActionView;

    open spec fn view(&self) -> CommandActionView {
        match self {
            CommandAction::SetFractalType(t) => CommandActionView::SetFractalType(*t),
            CommandAction::LoadPreset(s) => CommandActionView::LoadPreset(s@),
            CommandAction::ToggleEffect(e) => CommandActionView::ToggleEffect(*e),
            CommandAction::SetColorMode(m) => CommandActionView::SetColorMode(*m),
            CommandAction::SetPalette(i) => CommandActionView::SetPalette(*i),
            CommandAction::SetShadowMode(m) => CommandActionView::SetShadowMode(*m),
            CommandAction::SetShadingModel(m) => CommandActionView::SetShadingModel(*m),
            CommandAction::SetLODProfile(p) => CommandActionView::SetLODProfile(*p),
            CommandAction::ToggleLOD => CommandActionView::ToggleLOD,
            CommandAction::ToggleLODDebug => CommandActionView::ToggleLODDebug,
            CommandAction::ToggleUI => CommandActionView::ToggleUI,
            CommandAction::ToggleStats => CommandActionView::ToggleStats,
            CommandAction::ResetView => CommandActionView::ResetView,
            CommandAction::ResetAll => CommandActionView::ResetAll,
            CommandAction::SavePreset => CommandActionView::SavePreset,
            CommandAction::ExportSettings => CommandActionView::ExportSettings,
            CommandAction::ImportSettings => CommandActionView::ImportSettings,
            CommandAction::StartRecording(s) => CommandActionView::StartRecording(s@),
            CommandAction::StopRecording => CommandActionView::StopRecording,
            CommandAction::Screenshot => CommandActionView::Screenshot,
            CommandAction::CycleTheme => CommandActionView::CycleTheme,
        }
    }
}

/// A single command in the palette.
#[derive(Debug)]
pub struct Command {
    pub name: String,
    pub aliases: Vec<String>,
    pub category: CommandCategory,
    pub action: CommandAction,
    pub description: String,
    pub shortcut: Option<String>,
}

/// The characters of each alias.
pub open spec fn alias_views(aliases: Seq<String>) -> Seq<Seq<char>> {
    aliases.map_values(|a: String| a@)
}

fn clone_strings(v: &Vec<String>) -> (r: Vec<String>)
    ensures
        r@ == v@,
{
    let mut r: Vec<String> = Vec::new();
    let mut i: usize = 0;
    while i < v.len()
        invariant
            i <= v@.len(),
            r@ == v@.subrange(0, i as int),
        decreases v@.len() - i,
    {
        r.push(v[i].clone());
        i = i + 1;
        assert(r@ =~= v@.subrange(0, i as int));
    }
    assert(r@ =~= v@);
    r
}

/// The mathematical content of a command: its texts as characters.
pub struct CommandView {
    pub name: Seq<char>,
    pub aliases: Seq<Seq<char>>,
    pub category: CommandCategory,
    pub action: CommandActionView,
    pub description: Seq<char>,
    pub shortcut: Option<Seq<char>>,
}

impl View for Command {
    type V = CommandView;

    open spec fn view(&self) -> CommandView {
        CommandView {
            name: self.name@,
            aliases: alias_views(self.aliases@),
            category: self.category,
            action: self.action@,
            description: self.description@,
            shortcut: match self.shortcut {
                Some(s) => Some(s@),
                None => None,
            },
        }
    }
}

impl Clone for Command {
    fn clone(&self) -> (r: Self)
        ensures
            r@ == self@,
    {
        let shortcut = match &self.shortcut {
            Some(s) => Some(s.clone()),
            None => None,
        };
        let r = Command {
            name: self.name.clone(),
            aliases: clone_strings(&self.aliases),
            category: self.category,
            action: self.action.clone(),
            description: self.description.clone(),
            shortcut,
        };
        assert(alias_views(r.aliases@) =~= alias_views(self.aliases@));
        r
    }
}

impl Command {
    /// A command with no aliases and no shortcut.
    pub fn new(name: &str, category: CommandCategory, action: CommandAction, description: &str) -> (c: Self)
        ensures
            c.name@ == name@,
            c.aliases@.len() == 0,
            c.category == category,
            c.action == action,
            c.description@ == description@,
            c.shortcut.is_none(),
    {
        Command {
            name: owned(name),
            aliases: Vec::new(),
            category,
            action,
            description: owned(description),
            shortcut: None,
        }
    }

    /// The same command with its aliases replaced.
    pub fn with_aliases(self, aliases: Vec<&str>) -> (c: Self)
        ensures
            c.name == self.name,
            c.aliases@.len() == aliases@.len(),
            forall|j: int| 0 <= j < aliases@.len() ==> (#[trigger] c.aliases@[j])@ == aliases@[j]@,
            c.category == self.category,
            c.action == self.action,
            c.description == self.description,
            c.shortcut == self.shortcut,
    {
        let mut v: Vec<String> = Vec::new();
        let mut i: usize = 0;
        while i < aliases.len()
            invariant
                i <= aliases@.len(),
                v@.len() == i,
                forall|j: int| 0 <= j < i ==> (#[trigger] v@[j])@ == aliases@[j]@,
            decreases aliases@.len() - i,
        {
            v.push(owned(aliases[i]));
            i = i + 1;
        }
        let mut c = self;
        c.aliases = v;
        c
    }

    /// The same command with a keyboard shortcut.
    pub fn with_shortcut(self, shortcut: &str) -> (c: Self)
        ensures
            c.name == self.name,
            c.aliases == self.aliases,
            c.category == self.category,
            c.action == self.action,
            c.description == self.description,
            c.shortcut is Some && c.shortcut->0@ == shortcut@,
    {
        let mut c = self;
        c.shortcut = Some(owned(shortcut));
        c
    }
}


/// The greedy left-to-right scan of the fuzzy matcher: from query position
/// `qi` and text position `ti`, with the current and the longest run of
/// consecutive matches, it returns how many query characters were matched
/// and the longest run.
pub open spec fn scan(q: Seq<char>, t: Seq<char>, qi: int, ti: int, consec: int, maxc: int) -> (int, int)
    decreases t.len() - ti,
{
    if 0 <= qi < q.len() && 0 <= ti < t.len() {
        if q[qi] == t[ti] {
            let c = consec + 1;
            scan(q, t, qi + 1, ti + 1, c, if maxc < c { c } else { maxc })
        } else {
            scan(q, t, qi, ti + 1, 0, maxc)
        }
    } else {
        (qi, maxc)
    }
}

/// The fuzzy score, in units, of a full match: 40 × (matched characters /
/// text bytes) + 40 × (longest run / query bytes) + 20 when the text starts
/// with the query (10 otherwise), each fraction taken down to a unit and
/// the total capped at 80.
pub open spec fn fuzzy_units(tm: int, mc: int, tl: int, ql: int, starts: bool) -> int {
    let u = SCORE_UNIT as int;
    let a = if tl > 0 { (40 * u * tm) / tl } else { 0 };
    let b = if ql > 0 { (40 * u * mc) / ql } else { 0 };
    let p = if starts { 20 * u } else { 10 * u };
    if a + b + p < 80 * u { a + b + p } else { 80 * u }
}

/// Fuzzy match of a query against a text (both already lowercased): every
/// query character must occur in the text in order.
pub open spec fn spec_fuzzy_match(q: Seq<char>, t: Seq<char>) -> Option<u64> {
    if q.len() == 0 {
        Some(SCORE_UNIT)
    } else {
        let r = scan(q, t, 0, 0, 0, 0);
        if r.0 < q.len() {
            None
        } else {
            Some(fuzzy_units(r.0, r.1, byte_len(t), byte_len(q), is_prefix(q, t)) as u64)
        }
    }
}

proof fn lemma_scan_bounds(q: Seq<char>, t: Seq<char>, qi: int, ti: int, consec: int, maxc: int)
    requires
        0 <= qi <= q.len(),
        0 <= ti <= t.len(),
        0 <= maxc <= qi,
        0 <= consec <= qi,
    ensures
        0 <= scan(q, t, qi, ti, consec, maxc).1 <= scan(q, t, qi, ti, consec, maxc).0 <= q.len(),
        scan(q, t, qi, ti, consec, maxc).0 >= qi,
    decreases t.len() - ti,
{
    if 0 <= qi < q.len() && 0 <= ti < t.len() {
        if q[qi] == t[ti] {
            let c = consec + 1;
            let m = if maxc < c { c } else { maxc };
            lemma_scan_bounds(q, t, qi + 1, ti + 1, c, m);
        } else {
            lemma_scan_bounds(q, t, qi, ti + 1, 0, maxc);
        }
    }
}

/// Fuzzy match score of `query` against `text` (both already lowercased),
/// or `None` when the query's characters do not all occur in order.
pub fn fuzzy_match(query: &str, text: &str) -> (r: Option<u64>)
    ensures
        r == spec_fuzzy_match(query@, text@),
        r matches Some(s) ==> s <= 80 * SCORE_UNIT,
{
    if query.is_empty() {
        return Some(SCORE_UNIT);
    }
    let q = chars_of(query);
    let t = chars_of(text);
    let qn = q.len();
    let tn = t.len();
    let mut qi: usize = 0;
    let mut ti: usize = 0;
    let mut consec: usize = 0;
    let mut maxc: usize = 0;
    while qi < qn && ti < tn
        invariant
            qn == q@.len(),
            tn == t@.len(),
            qi <= qn,
            ti <= tn,
            consec <= qi,
            maxc <= qi,
            consec <= ti,
            scan(q@, t@, qi as int, ti as int, consec as int, maxc as int) == scan(q@, t@, 0, 0, 0, 0),
        decreases tn - ti,
    {
        if q[qi] == t[ti] {
            qi = qi + 1;
            consec = consec + 1;
            if maxc < consec {
                maxc = consec;
            }
        } else {
            consec = 0;
        }
        ti = ti + 1;
    }
    proof {
        lemma_scan_bounds(q@, t@, 0, 0, 0, 0);
    }
    if qi < qn {
        return None;
    }
    let starts = starts_with(&t, &q);
    let tl = text.len();
    let ql = query.len();
    let u: u128 = SCORE_UNIT as u128;
    let a: u128 = if tl > 0 { (40 * u * (qi as u128)) / (tl as u128) } else { 0 };
    let b: u128 = if ql > 0 { (40 * u * (maxc as u128)) / (ql as u128) } else { 0 };
    let p: u128 = if starts { 20 * u } else { 10 * u };
    let total: u128 = if a + b + p < 80 * u { a + b + p } else { 80 * u };
    Some(total as u64)
}

/// Score of the first alias that equals the query (95) or starts with it
/// (85), scanning from alias `i`.
pub open spec fn alias_tier(q: Seq<char>, aliases: Seq<Seq<char>>, i: int) -> Option<u64>
    decreases aliases.len() - i,
{
    if 0 <= i < aliases.len() {
        if aliases[i] == q {
            Some((95 * SCORE_UNIT) as u64)
        } else if is_prefix(q, aliases[i]) {
            Some((85 * SCORE_UNIT) as u64)
        } else {
            alias_tier(q, aliases, i + 1)
        }
    } else {
        None
    }
}

/// Nine tenths of the fuzzy score of the first alias that fuzzy-matches,
/// scanning from alias `i`.
pub open spec fn alias_fuzzy(q: Seq<char>, aliases: Seq<Seq<char>>, i: int) -> Option<u64>
    decreases aliases.len() - i,
{
    if 0 <= i < aliases.len() {
        match spec_fuzzy_match(q, aliases[i]) {
            Some(s) => Some(((s as int * 9) / 10) as u64),
            None => alias_fuzzy(q, aliases, i + 1),
        }
    } else {
        None
    }
}

/// Score of a command against a query, all texts already lowercased: exact
/// name 100, name prefix 90, alias exact 95 / prefix 85, fuzzy name match,
/// fuzzy alias match (nine tenths), description containing the query 30.
pub open spec fn spec_match_lower(q: Seq<char>, name: Seq<char>, aliases: Seq<Seq<char>>, desc: Seq<char>) -> Option<u64> {
    if name == q {
        Some((100 * SCORE_UNIT) as u64)
    } else if is_prefix(q, name) {
        Some((90 * SCORE_UNIT) as u64)
    } else if alias_tier(q, aliases, 0) is Some {
        alias_tier(q, aliases, 0)
    } else if spec_fuzzy_match(q, name) is Some {
        spec_fuzzy_match(q, name)
    } else if alias_fuzzy(q, aliases, 0) is Some {
        alias_fuzzy(q, aliases, 0)
    } else if occurs_in(q, desc) {
        Some((30 * SCORE_UNIT) as u64)
    } else {
        None
    }
}

/// Score of a command against a query, case-insensitively: a score of one
/// unit for the empty query, otherwise the lowercased tiers.
pub open spec fn spec_match_score(c: CommandView, q: Seq<char>) -> Option<u64> {
    if q.len() == 0 {
        Some(SCORE_UNIT)
    } else {
        spec_match_lower(
            lowercase(q),
            lowercase(c.name),
            c.aliases.map_values(|a: Seq<char>| lowercase(a)),
            lowercase(c.description),
        )
    }
}

/// Score of a command whose texts and the query are already lowercase.
pub fn match_score_lower(query: &str, name: &str, aliases: &Vec<String>, description: &str) -> (r: Option<u64>)
    ensures
        r == spec_match_lower(query@, name@, alias_views(aliases@), description@),
{
    let q = chars_of(query);
    let n = chars_of(name);
    if seq_eq(&n, &q) {
        return Some(100 * SCORE_UNIT);
    }
    if starts_with(&n, &q) {
        return Some(90 * SCORE_UNIT);
    }
    let ghost av = alias_views(aliases@);
    let mut i: usize = 0;
    while i < aliases.len()
        invariant
            i <= aliases@.len(),
            av == alias_views(aliases@),
            q@ == query@,
            n@ == name@,
            n@ != q@,
            !is_prefix(q@, n@),
            alias_tier(q@, av, 0) == alias_tier(q@, av, i as int),
        decreases aliases@.len() - i,
    {
        let a = chars_of(aliases[i].as_str());
        assert(a@ == av[i as int]);
        if seq_eq(&a, &q) {
            return Some(95 * SCORE_UNIT);
        }
        if starts_with(&a, &q) {
            return Some(85 * SCORE_UNIT);
        }
        i = i + 1;
    }
    if let Some(sc) = fuzzy_match(query, name) {
        return Some(sc);
    }
    let mut j: usize = 0;
    while j < aliases.len()
        invariant
            j <= aliases@.len(),
            av == alias_views(aliases@),
            name@ != query@,
            !is_prefix(query@, name@),
            alias_tier(query@, av, 0) is None,
            spec_fuzzy_match(query@, name@) is None,
            alias_fuzzy(query@, av, 0) == alias_fuzzy(query@, av, j as int),
        decreases aliases@.len() - j,
    {
        assert(aliases[j as int]@ == av[j as int]);
        if let Some(sc) = fuzzy_match(query, aliases[j].as_str()) {
            return Some(sc * 9 / 10);
        }
        j = j + 1;
    }
    let d = chars_of(description);
    if contains_seq(&d, &q) {
        return Some(30 * SCORE_UNIT);
    }
    None
}

impl Command {
    /// Fuzzy match score of this command for a query (see
    /// [`spec_match_score`]); `None` when the command does not match.
    pub fn match_score(&self, query: &str) -> (r: Option<u64>)
        ensures
            r == spec_match_score(self@, query@),
    {
        if query.is_empty() {
            return Some(SCORE_UNIT);
        }
        let q = to_lower(query);
        let n = to_lower(self.name.as_str());
        let d = to_lower(self.description.as_str());
        let mut lowered: Vec<String> = Vec::new();
        let mut i: usize = 0;
        while i < self.aliases.len()
            invariant
                i <= self.aliases@.len(),
                lowered@.len() == i,
                forall|j: int| 0 <= j < i ==> (#[trigger] lowered@[j])@ == lowercase(self.aliases@[j]@),
            decreases self.aliases@.len() - i,
        {
            lowered.push(to_lower(self.aliases[i].as_str()));
            i = i + 1;
        }
        assert(alias_views(lowered@) =~= self@.aliases.map_values(|a: Seq<char>| lowercase(a)));
        match_score_lower(q.as_str(), n.as_str(), &lowered, d.as_str())
    }
}


/// A scored entry of the palette, by its view.
pub open spec fn entry_view(e: (u64, Command)) -> (u64, CommandView) {
    (e.0, e.1@)
}

pub open spec fn entries_view(s: Seq<(u64, Command)>) -> Seq<(u64, CommandView)> {
    s.map_values(|e: (u64, Command)| entry_view(e))
}

/// The commands that match a query, with their scores, in catalog order.
pub open spec fn scored(cs: Seq<CommandView>, q: Seq<char>) -> Seq<(u64, CommandView)>
    decreases cs.len(),
{
    if cs.len() == 0 {
        Seq::empty()
    } else {
        let rest = scored(cs.drop_last(), q);
        match spec_match_score(cs.last(), q) {
            Some(sc) => rest.push((sc, cs.last())),
            None => rest,
        }
    }
}

/// Inserts `x` after every trailing entry whose score is below it, that is
/// after the last entry scoring at least as much: the insertion step of a
/// stable sort by descending score.
pub open spec fn insert_desc(s: Seq<(u64, CommandView)>, x: (u64, CommandView)) -> Seq<(u64, CommandView)>
    decreases s.len(),
{
    if s.len() == 0 {
        seq![x]
    } else if s.last().0 >= x.0 {
        s.push(x)
    } else {
        insert_desc(s.drop_last(), x).push(s.last())
    }
}

/// Stable sort by descending score.
pub open spec fn sort_desc(s: Seq<(u64, CommandView)>) -> Seq<(u64, CommandView)>
    decreases s.len(),
{
    if s.len() == 0 {
        s
    } else {
        insert_desc(sort_desc(s.drop_last()), s.last())
    }
}

/// At most the first ten entries.
pub open spec fn top_ten(s: Seq<(u64, CommandView)>) -> Seq<(u64, CommandView)> {
    if s.len() > 10 {
        s.subrange(0, 10)
    } else {
        s
    }
}

/// The palette's result list for a query: the matching commands, stably
/// sorted by descending score, limited to ten.
pub open spec fn spec_filtered(cs: Seq<CommandView>, q: Seq<char>) -> Seq<(u64, CommandView)> {
    top_ten(sort_desc(scored(cs, q)))
}

proof fn lemma_insert_desc(s: Seq<(u64, CommandView)>, x: (u64, CommandView), p: int)
    requires
        0 <= p <= s.len(),
        p == 0 || s[p - 1].0 >= x.0,
        forall|j: int| p <= j < s.len() ==> (#[trigger] s[j]).0 < x.0,
    ensures
        insert_desc(s, x) == s.insert(p, x),
    decreases s.len(),
{
    if s.len() == 0 {
        assert(s.insert(p, x) =~= seq![x]);
    } else if s.last().0 >= x.0 {
        if p < s.len() {
            assert(s[s.len() - 1].0 < x.0);
        }
        assert(s.insert(p, x) =~= s.push(x));
    } else {
        let d = s.drop_last();
        assert forall|j: int| p <= j < d.len() implies (#[trigger] d[j]).0 < x.0 by {
            assert(d[j] == s[j]);
        }
        if p > 0 {
            assert(d[p - 1] == s[p - 1]);
        }
        lemma_insert_desc(d, x, p);
        assert(d.insert(p, x).push(s.last()) =~= s.insert(p, x));
    }
}

/// Command palette state.
pub struct CommandPalette {
    pub open: bool,
    pub query: String,
    pub selected_index: usize,
    pub filtered_commands: Vec<(u64, Command)>,
    pub commands: Vec<Command>,
}

impl CommandPalette {
    /// The full catalog of commands the palette searches.
    pub open spec fn catalog(&self) -> Seq<CommandView> {
        self.commands@.map_values(|c: Command| c@)
    }

    /// A closed palette over the built-in catalog.
    pub fn new() -> (p: Self)
        ensures
            !p.open,
            p.query@.len() == 0,
            p.selected_index == 0,
            p.filtered_commands@.len() == 0,
            p.catalog() == spec_builtin_catalog(),
    {
        let commands = Self::build_commands();
        let p = CommandPalette {
            open: false,
            query: String::new(),
            selected_index: 0,
            filtered_commands: Vec::new(),
            commands,
        };
        p
    }

    /// Opens the palette with an empty query, listing the best matches of
    /// the empty query.
    pub fn open(&mut self)
        ensures
            final(self).open,
            final(self).query@.len() == 0,
            final(self).selected_index == 0,
            final(self).catalog() == old(self).catalog(),
            entries_view(final(self).filtered_commands@) == spec_filtered(old(self).catalog(), Seq::empty()),
    {
        self.open = true;
        self.query = String::new();
        self.selected_index = 0;
        self.update_filtered_commands();
    }

    /// Closes the palette, clearing the query and the results.
    pub fn close(&mut self)
        ensures
            !final(self).open,
            final(self).query@.len() == 0,
            final(self).selected_index == 0,
            final(self).filtered_commands@.len() == 0,
            final(self).catalog() == old(self).catalog(),
    {
        self.open = false;
        self.query = String::new();
        self.selected_index = 0;
        self.filtered_commands = Vec::new();
    }

    /// Opens a closed palette, closes an open one.
    pub fn toggle(&mut self)
        ensures
            final(self).open == !old(self).open,
            final(self).query@.len() == 0,
            final(self).selected_index == 0,
            final(self).catalog() == old(self).catalog(),
            old(self).open ==> final(self).filtered_commands@.len() == 0,
            !old(self).open ==> entries_view(final(self).filtered_commands@) == spec_filtered(old(self).catalog(), Seq::empty()),
    {
        if self.open {
            self.close();
        } else {
            self.open();
        }
    }

    /// Sets the search query, resets the selection and refreshes the
    /// results.
    pub fn set_query(&mut self, query: String)
        ensures
            final(self).open == old(self).open,
            final(self).query == query,
            final(self).selected_index == 0,
            final(self).catalog() == old(self).catalog(),
            entries_view(final(self).filtered_commands@) == spec_filtered(old(self).catalog(), query@),
    {
        self.query = query;
        self.selected_index = 0;
        self.update_filtered_commands();
    }

    /// Moves the selection up, stopping at the first entry.
    pub fn select_previous(&mut self)
        ensures
            final(self).selected_index == (if old(self).selected_index > 0 { (old(self).selected_index - 1) as usize } else { 0 }),
            final(self).open == old(self).open,
            final(self).query == old(self).query,
            final(self).filtered_commands == old(self).filtered_commands,
            final(self).catalog() == old(self).catalog(),
    {
        if self.selected_index > 0 {
            self.selected_index = self.selected_index - 1;
        }
    }

    /// Moves the selection down, stopping at the last entry.
    pub fn select_next(&mut self)
        ensures
            final(self).selected_index == (if old(self).selected_index + 1 < old(self).filtered_commands@.len() {
                (old(self).selected_index + 1) as usize
            } else {
                old(self).selected_index
            }),
            final(self).open == old(self).open,
            final(self).query == old(self).query,
            final(self).filtered_commands == old(self).filtered_commands,
            final(self).catalog() == old(self).catalog(),
    {
        let len = self.filtered_commands.len();
        let last = if len > 0 { len - 1 } else { 0 };
        if self.selected_index < last {
            self.selected_index = self.selected_index + 1;
        }
    }

    /// The selected command, if the selection is on a result.
    pub fn get_selected_command(&self) -> (r: Option<&Command>)
        ensures
            self.selected_index < self.filtered_commands@.len() ==> r == Some(&self.filtered_commands@[self.selected_index as int].1),
            self.selected_index >= self.filtered_commands@.len() ==> r is None,
    {
        if self.selected_index < self.filtered_commands.len() {
            Some(&self.filtered_commands[self.selected_index].1)
        } else {
            None
        }
    }

    /// Recomputes the results for the current query.
    fn update_filtered_commands(&mut self)
        ensures
            final(self).open == old(self).open,
            final(self).query == old(self).query,
            final(self).selected_index == old(self).selected_index,
            final(self).commands == old(self).commands,
            entries_view(final(self).filtered_commands@) == spec_filtered(old(self).catalog(), old(self).query@),
    {
        let ghost cs = self.catalog();
        let ghost q = self.query@;
        let mut out: Vec<(u64, Command)> = Vec::new();
        let n = self.commands.len();
        let mut i: usize = 0;
        assert(cs.subrange(0, 0) =~= Seq::<CommandView>::empty());
        while i < n
            invariant
                n == self.commands@.len(),
                cs == self.commands@.map_values(|c: Command| c@),
                q == self.query@,
                i <= n,
                entries_view(out@) == sort_desc(scored(cs.subrange(0, i as int), q)),
            decreases n - i,
        {
            let ghost before = out@;
            let ghost pre = cs.subrange(0, i as int);
            let ghost post = cs.subrange(0, i + 1);
            assert(post.drop_last() =~= pre);
            assert(post.last() == self.commands@[i as int]@);
            let m = self.commands[i].match_score(self.query.as_str());
            if let Some(sc) = m {
                let c = self.commands[i].clone();
                let ghost xv: (u64, CommandView) = (sc, c@);
                let mut p = out.len();
                while p > 0 && out[p - 1].0 < sc
                    invariant
                        p <= out@.len(),
                        out@ == before,
                        forall|j: int| p <= j < out@.len() ==> (#[trigger] out@[j]).0 < sc,
                    decreases p,
                {
                    p = p - 1;
                }
                proof {
                    let sv = entries_view(before);
                    assert forall|j: int| p <= j < sv.len() implies (#[trigger] sv[j]).0 < xv.0 by {
                        assert(sv[j] == entry_view(before[j]));
                    }
                    if p > 0 {
                        assert(sv[p - 1] == entry_view(before[p - 1]));
                    }
                    lemma_insert_desc(sv, xv, p as int);
                }
                out.insert(p, (sc, c));
                assert(entries_view(out@) =~= entries_view(before).insert(p as int, xv));
                assert(scored(post, q) == scored(pre, q).push(xv));
                assert(scored(post, q).drop_last() =~= scored(pre, q));
            } else {
                assert(scored(post, q) == scored(pre, q));
            }
            i = i + 1;
        }
        assert(cs.subrange(0, n as int) =~= cs);
        out.truncate(10);
        assert(entries_view(out@) =~= top_ten(sort_desc(scored(cs, q))));
        self.filtered_commands = out;
    }
}




/// Entries in descending score order.
pub open spec fn sorted_desc(s: Seq<(u64, CommandView)>) -> bool {
    forall|i: int, j: int| 0 <= i < j < s.len() ==> (#[trigger] s[i]).0 >= (#[trigger] s[j]).0
}

proof fn lemma_insert_desc_props(s: Seq<(u64, CommandView)>, x: (u64, CommandView))
    requires
        sorted_desc(s),
    ensures
        sorted_desc(insert_desc(s, x)),
        insert_desc(s, x).len() == s.len() + 1,
        forall|k: int| 0 <= k < insert_desc(s, x).len() ==> (#[trigger] insert_desc(s, x)[k] == x || s.contains(insert_desc(s, x)[k])),
    decreases s.len(),
{
    if s.len() == 0 {
    } else if s.last().0 >= x.0 {
        let r = s.push(x);
        assert forall|k: int| 0 <= k < r.len() implies (#[trigger] r[k] == x || s.contains(r[k])) by {
            if k < s.len() {
                assert(r[k] == s[k]);
            }
        }
    } else {
        let d = s.drop_last();
        assert(sorted_desc(d)) by {
            assert forall|i: int, j: int| 0 <= i < j < d.len() implies (#[trigger] d[i]).0 >= (#[trigger] d[j]).0 by {
                assert(d[i] == s[i] && d[j] == s[j]);
            }
        }
        lemma_insert_desc_props(d, x);
        let m = insert_desc(d, x);
        let r = m.push(s.last());
        assert forall|k: int| 0 <= k < m.len() implies (#[trigger] m[k]).0 >= s.last().0 by {
            if m[k] == x {
            } else {
                let w = choose|w: int| 0 <= w < d.len() && d[w] == m[k];
                assert(s[w] == d[w]);
                assert(s[w].0 >= s[s.len() - 1].0);
            }
        }
        assert forall|i: int, j: int| 0 <= i < j < r.len() implies (#[trigger] r[i]).0 >= (#[trigger] r[j]).0 by {
            if j == r.len() - 1 {
                assert(r[i] == m[i]);
            } else {
                assert(r[i] == m[i] && r[j] == m[j]);
            }
        }
        assert forall|k: int| 0 <= k < r.len() implies (#[trigger] r[k] == x || s.contains(r[k])) by {
            if k == r.len() - 1 {
                assert(s[s.len() - 1] == r[k]);
            } else {
                assert(r[k] == m[k]);
                if m[k] != x {
                    let w = choose|w: int| 0 <= w < d.len() && d[w] == m[k];
                    assert(s[w] == d[w]);
                }
            }
        }
    }
}

proof fn lemma_sort_desc_props(s: Seq<(u64, CommandView)>)
    ensures
        sorted_desc(sort_desc(s)),
        sort_desc(s).len() == s.len(),
        forall|k: int| 0 <= k < sort_desc(s).len() ==> s.contains(#[trigger] sort_desc(s)[k]),
    decreases s.len(),
{
    if s.len() > 0 {
        let d = s.drop_last();
        lemma_sort_desc_props(d);
        lemma_insert_desc_props(sort_desc(d), s.last());
        let r = sort_desc(s);
        assert forall|k: int| 0 <= k < r.len() implies s.contains(#[trigger] r[k]) by {
            if r[k] == s.last() {
                assert(s[s.len() - 1] == r[k]);
            } else {
                let w = choose|w: int| 0 <= w < sort_desc(d).len() && sort_desc(d)[w] == r[k];
                let v = choose|v: int| 0 <= v < d.len() && d[v] == sort_desc(d)[w];
                assert(s[v] == d[v]);
            }
        }
    }
}

proof fn lemma_scored_props(cs: Seq<CommandView>, q: Seq<char>)
    ensures
        scored(cs, q).len() <= cs.len(),
        forall|k: int| 0 <= k < scored(cs, q).len() ==> {
            &&& spec_match_score((#[trigger] scored(cs, q)[k]).1, q) == Some(scored(cs, q)[k].0)
            &&& cs.contains(scored(cs, q)[k].1)
        },
    decreases cs.len(),
{
    if cs.len() > 0 {
        let d = cs.drop_last();
        lemma_scored_props(d, q);
        let r = scored(cs, q);
        assert forall|k: int| 0 <= k < r.len() implies {
            &&& spec_match_score((#[trigger] r[k]).1, q) == Some(r[k].0)
            &&& cs.contains(r[k].1)
        } by {
            if k < scored(d, q).len() {
                assert(r[k] == scored(d, q)[k]);
                let w = choose|w: int| 0 <= w < d.len() && d[w] == scored(d, q)[k].1;
                assert(cs[w] == d[w]);
            } else {
                assert(cs[cs.len() - 1] == cs.last());
            }
        }
    }
}

proof fn lemma_insert_desc_multiset(s: Seq<(u64, CommandView)>, x: (u64, CommandView))
    ensures
        insert_desc(s, x).to_multiset() =~= s.to_multiset().insert(x),
    decreases s.len(),
{
    broadcast use vstd::seq_lib::group_to_multiset_ensures;
    if s.len() == 0 {
        assert(seq![x] =~= s.push(x));
    } else if s.last().0 >= x.0 {
    } else {
        let d = s.drop_last();
        lemma_insert_desc_multiset(d, x);
        assert(s =~= d.push(s.last()));
    }
}

proof fn lemma_sort_desc_multiset(s: Seq<(u64, CommandView)>)
    ensures
        sort_desc(s).to_multiset() =~= s.to_multiset(),
    decreases s.len(),
{
    broadcast use vstd::seq_lib::group_to_multiset_ensures;
    if s.len() > 0 {
        let d = s.drop_last();
        lemma_sort_desc_multiset(d);
        lemma_insert_desc_multiset(sort_desc(d), s.last());
        assert(s =~= d.push(s.last()));
    }
}

proof fn lemma_scored_complete(cs: Seq<CommandView>, q: Seq<char>, i: int)
    requires
        0 <= i < cs.len(),
    ensures
        spec_match_score(cs[i], q) matches Some(sc) ==> scored(cs, q).contains((sc, cs[i])),
    decreases cs.len(),
{
    if spec_match_score(cs[i], q) is Some {
        let sc = spec_match_score(cs[i], q)->0;
        let d = cs.drop_last();
        if i < cs.len() - 1 {
            lemma_scored_complete(d, q, i);
            assert(d[i] == cs[i]);
            let w = choose|w: int| 0 <= w < scored(d, q).len() && scored(d, q)[w] == (sc, cs[i]);
            assert(scored(cs, q)[w] == scored(d, q)[w]);
        } else {
            assert(cs.last() == cs[i]);
            assert(scored(cs, q)[scored(cs, q).len() - 1] == (sc, cs[i]));
        }
    }
}

/// No match is left out for a worse one: the palette lists ten results when
/// more than ten commands match and every match otherwise, and a matching
/// command that is not listed scores no more than any listed result.
pub proof fn lemma_results_complete(cs: Seq<CommandView>, q: Seq<char>, i: int)
    requires
        0 <= i < cs.len(),
    ensures
        spec_filtered(cs, q).len() == (if scored(cs, q).len() > 10 { 10 } else { scored(cs, q).len() }),
        spec_match_score(cs[i], q) matches Some(sc) ==> (spec_filtered(cs, q).contains((sc, cs[i])) || forall|k: int|
            0 <= k < spec_filtered(cs, q).len() ==> (#[trigger] spec_filtered(cs, q)[k]).0 >= sc),
        (spec_match_score(cs[i], q) is Some && scored(cs, q).len() <= 10) ==> spec_filtered(cs, q).contains(
            (spec_match_score(cs[i], q)->0, cs[i]),
        ),
{
    broadcast use vstd::seq_lib::group_to_multiset_ensures;
    let sc_all = scored(cs, q);
    lemma_sort_desc_props(sc_all);
    let so = sort_desc(sc_all);
    let r = spec_filtered(cs, q);
    if spec_match_score(cs[i], q) is Some {
        let sc = spec_match_score(cs[i], q)->0;
        let x = (sc, cs[i]);
        lemma_scored_complete(cs, q, i);
        lemma_sort_desc_multiset(sc_all);
        assert(sc_all.to_multiset().count(x) > 0);
        assert(so.to_multiset().count(x) > 0);
        assert(so.contains(x));
        let w = choose|w: int| 0 <= w < so.len() && so[w] == x;
        if w < 10 {
            assert(r[w] == so[w]);
        } else {
            assert forall|k: int| 0 <= k < r.len() implies (#[trigger] r[k]).0 >= sc by {
                assert(r[k] == so[k]);
            }
        }
    }
}

/// The palette lists at most ten results, best score first; every result
/// is a command of the catalog that matches the query with exactly the
/// score it is listed with.
pub proof fn lemma_results_ranked(cs: Seq<CommandView>, q: Seq<char>)
    ensures
        spec_filtered(cs, q).len() <= 10,
        sorted_desc(spec_filtered(cs, q)),
        forall|k: int| 0 <= k < spec_filtered(cs, q).len() ==> {
            &&& spec_match_score((#[trigger] spec_filtered(cs, q)[k]).1, q) == Some(spec_filtered(cs, q)[k].0)
            &&& cs.contains(spec_filtered(cs, q)[k].1)
        },
{
    let sc = scored(cs, q);
    lemma_scored_props(cs, q);
    lemma_sort_desc_props(sc);
    let so = sort_desc(sc);
    let r = spec_filtered(cs, q);
    assert forall|i: int, j: int| 0 <= i < j < r.len() implies (#[trigger] r[i]).0 >= (#[trigger] r[j]).0 by {
        assert(r[i] == so[i] && r[j] == so[j]);
    }
    assert forall|k: int| 0 <= k < r.len() implies {
        &&& spec_match_score((#[trigger] r[k]).1, q) == Some(r[k].0)
        &&& cs.contains(r[k].1)
    } by {
        assert(r[k] == so[k]);
        let w = choose|w: int| 0 <= w < sc.len() && sc[w] == so[k];
    }
}

/// Every command matches the empty query with one unit, so the empty
/// query lists the catalog's first ten commands in catalog order.
pub proof fn lemma_empty_query_lists_catalog(cs: Seq<CommandView>)
    ensures
        spec_filtered(cs, Seq::empty()) == top_ten(cs.map_values(|c: CommandView| (SCORE_UNIT, c))),
    decreases cs.len(),
{
    lemma_empty_sorted(cs);
}

proof fn lemma_empty_sorted(cs: Seq<CommandView>)
    ensures
        scored(cs, Seq::empty()) == cs.map_values(|c: CommandView| (SCORE_UNIT, c)),
        sort_desc(scored(cs, Seq::empty())) == scored(cs, Seq::empty()),
    decreases cs.len(),
{
    let q = Seq::<char>::empty();
    if cs.len() == 0 {
        assert(cs.map_values(|c: CommandView| (SCORE_UNIT, c)) =~= Seq::empty());
    } else {
        let d = cs.drop_last();
        lemma_empty_sorted(d);
        assert(cs.map_values(|c: CommandView| (SCORE_UNIT, c)) =~= d.map_values(|c: CommandView| (SCORE_UNIT, c)).push((SCORE_UNIT, cs.last())));
        let sd = scored(d, q);
        let x = (SCORE_UNIT, cs.last());
        assert(scored(cs, q) == sd.push(x));
        assert(scored(cs, q).drop_last() =~= sd);
        if sd.len() > 0 {
            assert(sd.last() == (SCORE_UNIT, d.last()));
        }
    }
}

/// No command scores more than an exact name match (100), and a fuzzy
/// match never scores above 80, below every exact or prefix match.
pub proof fn lemma_score_bounds(c: CommandView, q: Seq<char>, t: Seq<char>)
    ensures
        spec_match_score(c, q) matches Some(s) ==> s <= 100 * SCORE_UNIT,
        spec_fuzzy_match(q, t) matches Some(s) ==> s <= 80 * SCORE_UNIT,
{
    let lq = lowercase(q);
    let al = c.aliases.map_values(|a: Seq<char>| lowercase(a));
    lemma_alias_scores(lq, al, 0);
    lemma_fuzzy_bound(q, t);
    lemma_fuzzy_bound(lq, lowercase(c.name));
}

proof fn lemma_fuzzy_bound(q: Seq<char>, t: Seq<char>)
    ensures
        spec_fuzzy_match(q, t) matches Some(s) ==> s <= 80 * SCORE_UNIT,
{
    if q.len() > 0 {
        lemma_scan_bounds(q, t, 0, 0, 0, 0);
        let r = scan(q, t, 0, 0, 0, 0);
        let u = SCORE_UNIT as int;
        let tl = byte_len(t);
        let ql = byte_len(q);
        assert(40 * u * r.0 >= 0 && 40 * u * r.1 >= 0) by (nonlinear_arith)
            requires r.0 >= 0, r.1 >= 0, u >= 0;
        if tl > 0 {
            vstd::arithmetic::div_mod::lemma_div_pos_is_pos(40 * u * r.0, tl);
        }
        if ql > 0 {
            vstd::arithmetic::div_mod::lemma_div_pos_is_pos(40 * u * r.1, ql);
        }
    }
}

proof fn lemma_alias_scores(q: Seq<char>, aliases: Seq<Seq<char>>, i: int)
    ensures
        alias_tier(q, aliases, i) matches Some(s) ==> s <= 95 * SCORE_UNIT,
        alias_fuzzy(q, aliases, i) matches Some(s) ==> s <= 80 * SCORE_UNIT,
    decreases aliases.len() - i,
{
    if 0 <= i < aliases.len() {
        lemma_alias_scores(q, aliases, i + 1);
        lemma_fuzzy_bound(q, aliases[i]);
    }
}

proof fn lemma_alias_tier_found(q: Seq<char>, aliases: Seq<Seq<char>>, i: int, k: int)
    requires
        0 <= i <= k < aliases.len(),
        aliases[k] == q,
    ensures
        alias_tier(q, aliases, i) == Some((95 * SCORE_UNIT) as u64) || alias_tier(q, aliases, i) == Some(
            (85 * SCORE_UNIT) as u64,
        ),
    decreases k - i,
{
    if aliases[i] != q && !is_prefix(q, aliases[i]) {
        lemma_alias_tier_found(q, aliases, i + 1, k);
    }
}

proof fn lemma_alias_none(q: Seq<char>, aliases: Seq<Seq<char>>, i: int)
    requires
        0 <= i,
        forall|k: int| 0 <= k < aliases.len() ==> !is_prefix(q, #[trigger] aliases[k]),
        forall|k: int| 0 <= k < aliases.len() ==> spec_fuzzy_match(q, #[trigger] aliases[k]) is None,
    ensures
        alias_tier(q, aliases, i) is None,
        alias_fuzzy(q, aliases, i) is None,
    decreases aliases.len() - i,
{
    if i < aliases.len() {
        assert(!is_prefix(q, aliases[i]));
        assert(q.len() <= aliases[i].len() ==> aliases[i].subrange(0, q.len() as int) != q);
        if aliases[i] == q {
            assert(aliases[i].subrange(0, q.len() as int) =~= q);
        }
        lemma_alias_none(q, aliases, i + 1);
    }
}

/// The match tiers, best first: the exact name scores 100, a name starting
/// with the query 90, an alias equal to the query 95 or (when an earlier
/// alias merely starts with it) 85; fuzzy matches score at most 80, and a
/// query found only in the description scores 30. A query that matches
/// nothing scores nothing.
pub proof fn lemma_match_tiers(q: Seq<char>, name: Seq<char>, aliases: Seq<Seq<char>>, desc: Seq<char>)
    ensures
        name == q ==> spec_match_lower(q, name, aliases, desc) == Some((100 * SCORE_UNIT) as u64),
        name != q && is_prefix(q, name) ==> spec_match_lower(q, name, aliases, desc) == Some(
            (90 * SCORE_UNIT) as u64,
        ),
        !is_prefix(q, name) && (exists|k: int| 0 <= k < aliases.len() && #[trigger] aliases[k] == q) ==> (
        spec_match_lower(q, name, aliases, desc) == Some((95 * SCORE_UNIT) as u64) || spec_match_lower(
            q,
            name,
            aliases,
            desc,
        ) == Some((85 * SCORE_UNIT) as u64)),
        (!is_prefix(q, name) && (forall|k: int| 0 <= k < aliases.len() ==> !is_prefix(q, #[trigger] aliases[k])))
            ==> (spec_match_lower(q, name, aliases, desc) matches Some(s) ==> (s <= 80 * SCORE_UNIT || s == 30
            * SCORE_UNIT)),
        (!is_prefix(q, name) && spec_fuzzy_match(q, name) is None && (forall|k: int|
            0 <= k < aliases.len() ==> !is_prefix(q, #[trigger] aliases[k]) && spec_fuzzy_match(q, aliases[k])
            is None)) ==> spec_match_lower(q, name, aliases, desc) == (if occurs_in(q, desc) {
            Some((30 * SCORE_UNIT) as u64)
        } else {
            None
        }),
{
    if name == q {
        assert(name.subrange(0, q.len() as int) =~= q);
    }
    if !is_prefix(q, name) {
        if exists|k: int| 0 <= k < aliases.len() && #[trigger] aliases[k] == q {
            let k = choose|k: int| 0 <= k < aliases.len() && #[trigger] aliases[k] == q;
            lemma_alias_tier_found(q, aliases, 0, k);
        }
        if forall|k: int| 0 <= k < aliases.len() ==> !is_prefix(q, #[trigger] aliases[k]) {
            lemma_alias_scores(q, aliases, 0);
            lemma_fuzzy_bound(q, name);
            lemma_alias_tier_absent(q, aliases, 0);
        }
        if spec_fuzzy_match(q, name) is None && (forall|k: int|
            0 <= k < aliases.len() ==> !is_prefix(q, #[trigger] aliases[k]) && spec_fuzzy_match(q, aliases[k])
            is None) {
            lemma_alias_none(q, aliases, 0);
        }
    }
}

proof fn lemma_alias_tier_absent(q: Seq<char>, aliases: Seq<Seq<char>>, i: int)
    requires
        0 <= i,
        forall|k: int| 0 <= k < aliases.len() ==> !is_prefix(q, #[trigger] aliases[k]),
    ensures
        alias_tier(q, aliases, i) is None,
    decreases aliases.len() - i,
{
    if i < aliases.len() {
        assert(!is_prefix(q, aliases[i]));
        if aliases[i] == q {
            assert(aliases[i].subrange(0, q.len() as int) =~= q);
        }
        lemma_alias_tier_absent(q, aliases, i + 1);
    }
}

/// The mathematical content of a catalog command.
pub open spec fn command_view(
    name: Seq<char>,
    category: CommandCategory,
    action: CommandActionView,
    description: Seq<char>,
    aliases: Seq<Seq<char>>,
    shortcut: Option<Seq<char>>,
) -> CommandView {
    CommandView { name, aliases, category, action, description, shortcut }
}

/// A catalog command with its aliases and optional shortcut.
fn catalog_command(
    name: &str,
    category: CommandCategory,
    action: CommandAction,
    description: &str,
    aliases: Vec<&str>,
    shortcut: Option<&str>,
) -> (c: Command)
    ensures
        c@ == command_view(
            name@,
            category,
            action@,
            description@,
            aliases@.map_values(|a: &str| a@),
            match shortcut {
                Some(s) => Some(s@),
                None => None,
            },
        ),
{
    let ghost al = aliases@;
    let c = Command::new(name, category, action, description).with_aliases(aliases);
    let c = match shortcut {
        Some(s) => c.with_shortcut(s),
        None => c,
    };
    assert(c@.aliases =~= al.map_values(|a: &str| a@));
    c
}

/// The views of a list of commands.
pub open spec fn command_views(v: Seq<Command>) -> Seq<CommandView> {
    v.map_values(|c: Command| c@)
}

/// The built-in commands for the fractal types, in catalog order.
pub open spec fn spec_fractal_commands() -> Seq<CommandView> {
    seq![
        command_view(
            "Mandelbrot (2D)"@,
            CommandCategory::Fractal,
            CommandActionView::SetFractalType(FractalType::Mandelbrot2D),
            "Classic Mandelbrot set fractal"@,
            seq!["mandelbrot"@, "mb"@, "mbrot"@],
            Some("1"@),
        ),
        command_view(
            "Julia Set (2D)"@,
            CommandCategory::Fractal,
            CommandActionView::SetFractalType(FractalType::Julia2D),
            "Julia set fractal with customizable constant"@,
            seq!["julia"@, "js"@],
            Some("2"@),
        ),
        command_view(
            "Burning Ship (2D)"@,
            CommandCategory::Fractal,
            CommandActionView::SetFractalType(FractalType::BurningShip2D),
            "Burning Ship fractal variation"@,
            seq!["burning ship"@, "ship"@],
            Some("3"@),
        ),
        command_view(
            "Mandelbulb (3D)"@,
            CommandCategory::Fractal,
            CommandActionView::SetFractalType(FractalType::Mandelbulb3D),
            "3D extension of Mandelbrot set"@,
            seq!["mandelbulb"@, "bulb"@],
            Some("F1"@),
        ),
        command_view(
            "Kleinian Group (3D)"@,
            CommandCategory::Fractal,
            CommandActionView::SetFractalType(FractalType::Kleinian3D),
            "Kleinian limit set fractal"@,
            seq!["kleinian"@, "klein"@],
            Some("F10"@),
        ),
        command_view(
            "Sierpinski Carpet (2D)"@,
            CommandCategory::Fractal,
            CommandActionView::SetFractalType(FractalType::Sierpinski2D),
            "Sierpinski Carpet (2D) fractal"@,
            seq!["sierpinski"@, "carpet"@],
            Some("4"@),
        ),
        command_view(
            "Tricorn (2D)"@,
            CommandCategory::Fractal,
            CommandActionView::SetFractalType(FractalType::Tricorn2D),
            "Tricorn (2D) fractal"@,
            seq!["tricorn"@],
            Some("5"@),
        ),
        command_view(
            "Phoenix (2D)"@,
            CommandCategory::Fractal,
            CommandActionView::SetFractalType(FractalType::Phoenix2D),
            "Phoenix (2D) fractal"@,
            seq!["phoenix"@],
            Some("6"@),
        ),
        command_view(
            "Celtic (2D)"@,
            CommandCategory::Fractal,
            CommandActionView::SetFractalType(FractalType::Celtic2D),
            "Celtic (2D) fractal"@,
            seq!["celtic"@],
            Some("7"@),
        ),
        command_view(
            "Newton (2D)"@,
            CommandCategory::Fractal,
            CommandActionView::SetFractalType(FractalType::Newton2D),
            "Newton (2D) fractal"@,
            seq!["newton"@],
            None,
        ),
        command_view(
            "Lyapunov (2D)"@,
            CommandCategory::Fractal,
            CommandActionView::SetFractalType(FractalType::Lyapunov2D),
            "Lyapunov (2D) fractal"@,
            seq!["lyapunov"@],
            None,
        ),
        command_view(
            "Nova (2D)"@,
            CommandCategory::Fractal,
            CommandActionView::SetFractalType(FractalType::Nova2D),
            "Nova (2D) fractal"@,
            seq!["nova"@],
            None,
        ),
        command_view(
            "Magnet (2D)"@,
            CommandCategory::Fractal,
            CommandActionView::SetFractalType(FractalType::Magnet2D),
            "Magnet (2D) fractal"@,
            seq!["magnet"@],
            None,
        ),
        command_view(
            "Collatz (2D)"@,
            CommandCategory::Fractal,
            CommandActionView::SetFractalType(FractalType::Collatz2D),
            "Collatz (2D) fractal"@,
            seq!["collatz"@],
            None,
        ),
        command_view(
            "Menger Sponge (3D)"@,
            CommandCategory::Fractal,
            CommandActionView::SetFractalType(FractalType::MengerSponge3D),
            "Menger Sponge (3D) fractal"@,
            seq!["menger"@, "sponge"@],
            Some("F2"@),
        ),
        command_view(
            "Sierpinski Pyramid (3D)"@,
            CommandCategory::Fractal,
            CommandActionView::SetFractalType(FractalType::SierpinskiPyramid3D),
            "Sierpinski Pyramid (3D) fractal"@,
            seq!["pyramid"@],
            Some("F3"@),
        ),
        command_view(
            "Julia Set (3D)"@,
            CommandCategory::Fractal,
            CommandActionView::SetFractalType(FractalType::JuliaSet3D),
            "Julia Set (3D) fractal"@,
            seq!["julia3d"@],
            Some("F4"@),
        ),
        command_view(
            "Mandelbox (3D)"@,
            CommandCategory::Fractal,
            CommandActionView::SetFractalType(FractalType::Mandelbox3D),
            "Mandelbox (3D) fractal"@,
            seq!["mandelbox"@, "box"@],
            Some("F5"@),
        ),
        command_view(
            "Octahedral IFS (3D)"@,
            CommandCategory::Fractal,
            CommandActionView::SetFractalType(FractalType::OctahedralIFS3D),
            "Octahedral IFS (3D) fractal"@,
            seq!["octahedral"@, "oct"@],
            Some("F7"@),
        ),
        command_view(
            "Icosahedral IFS (3D)"@,
            CommandCategory::Fractal,
            CommandActionView::SetFractalType(FractalType::IcosahedralIFS3D),
            "Icosahedral IFS (3D) fractal"@,
            seq!["icosahedral"@, "ico"@],
            Some("F8"@),
        ),
        command_view(
            "Apollonian Gasket (3D)"@,
            CommandCategory::Fractal,
            CommandActionView::SetFractalType(FractalType::ApollonianGasket3D),
            "Apollonian Gasket (3D) fractal"@,
            seq!["apollonian"@, "gasket"@],
            Some("F9"@),
        ),
        command_view(
            "Hybrid Mandelbulb-Julia (3D)"@,
            CommandCategory::Fractal,
            CommandActionView::SetFractalType(FractalType::HybridMandelbulbJulia3D),
            "Hybrid Mandelbulb-Julia (3D) fractal"@,
            seq!["hybrid"@],
            Some("F11"@),
        ),
        command_view(
            "Quaternion Cubic (3D)"@,
            CommandCategory::Fractal,
            CommandActionView::SetFractalType(FractalType::QuaternionCubic3D),
            "Quaternion Cubic (3D) fractal"@,
            seq!["quaternion"@, "quat"@],
            None,
        ),
        command_view(
            "Sierpinski Triangle (2D)"@,
            CommandCategory::Fractal,
            CommandActionView::SetFractalType(FractalType::SierpinskiTriangle2D),
            "Sierpinski Triangle (2D) fractal"@,
            seq!["sierpinski triangle"@, "triangle"@],
            None,
        ),
        command_view(
            "Sierpinski Gasket (3D)"@,
            CommandCategory::Fractal,
            CommandActionView::SetFractalType(FractalType::SierpinskiGasket3D),
            "Sierpinski Gasket (3D) fractal"@,
            seq!["sierpinski gasket"@, "tetrahedron"@],
            None,
        ),
        command_view(
            "Hopalong (2D)"@,
            CommandCategory::Fractal,
            CommandActionView::SetFractalType(FractalType::Hopalong2D),
            "Hopalong (2D) fractal"@,
            seq!["hopalong"@],
            None,
        ),
        command_view(
            "Martin (2D)"@,
            CommandCategory::Fractal,
            CommandActionView::SetFractalType(FractalType::Martin2D),
            "Martin (2D) fractal"@,
            seq!["martin"@],
            None,
        ),
        command_view(
            "Gingerbreadman (2D)"@,
            CommandCategory::Fractal,
            CommandActionView::SetFractalType(FractalType::Gingerbreadman2D),
            "Gingerbreadman (2D) fractal"@,
            seq!["gingerbreadman"@, "gingerbread"@],
            None,
        ),
        command_view(
            "Chip (2D)"@,
            CommandCategory::Fractal,
            CommandActionView::SetFractalType(FractalType::Chip2D),
            "Chip (2D) fractal"@,
            seq!["chip"@],
            None,
        ),
        command_view(
            "Quadruptwo (2D)"@,
            CommandCategory::Fractal,
            CommandActionView::SetFractalType(FractalType::Quadruptwo2D),
            "Quadruptwo (2D) fractal"@,
            seq!["quadruptwo"@],
            None,
        ),
        command_view(
            "Threeply (2D)"@,
            CommandCategory::Fractal,
            CommandActionView::SetFractalType(FractalType::Threeply2D),
            "Threeply (2D) fractal"@,
            seq!["threeply"@],
            None,
        ),
    ]
}

#[verifier::rlimit(50)]
fn fractal_commands() -> (v: Vec<Command>)
    ensures
        command_views(v@) == spec_fractal_commands(),
{
    let mut v: Vec<Command> = Vec::new();
    let c = catalog_command(
        "Mandelbrot (2D)",
        CommandCategory::Fractal,
        CommandAction::SetFractalType(FractalType::Mandelbrot2D),
        "Classic Mandelbrot set fractal",
        vec!["mandelbrot", "mb", "mbrot"],
        Some("1"),
    );
    assert(c@.aliases =~= seq!["mandelbrot"@, "mb"@, "mbrot"@]);
    v.push(c);
    let c = catalog_command(
        "Julia Set (2D)",
        CommandCategory::Fractal,
        CommandAction::SetFractalType(FractalType::Julia2D),
        "Julia set fractal with customizable constant",
        vec!["julia", "js"],
        Some("2"),
    );
    assert(c@.aliases =~= seq!["julia"@, "js"@]);
    v.push(c);
    let c = catalog_command(
        "Burning Ship (2D)",
        CommandCategory::Fractal,
        CommandAction::SetFractalType(FractalType::BurningShip2D),
        "Burning Ship fractal variation",
        vec!["burning ship", "ship"],
        Some("3"),
    );
    assert(c@.aliases =~= seq!["burning ship"@, "ship"@]);
    v.push(c);
    let c = catalog_command(
        "Mandelbulb (3D)",
        CommandCategory::Fractal,
        CommandAction::SetFractalType(FractalType::Mandelbulb3D),
        "3D extension of Mandelbrot set",
        vec!["mandelbulb", "bulb"],
        Some("F1"),
    );
    assert(c@.aliases =~= seq!["mandelbulb"@, "bulb"@]);
    v.push(c);
    let c = catalog_command(
        "Kleinian Group (3D)",
        CommandCategory::Fractal,
        CommandAction::SetFractalType(FractalType::Kleinian3D),
        "Kleinian limit set fractal",
        vec!["kleinian", "klein"],
        Some("F10"),
    );
    assert(c@.aliases =~= seq!["kleinian"@, "klein"@]);
    v.push(c);
    let c = catalog_command(
        "Sierpinski Carpet (2D)",
        CommandCategory::Fractal,
        CommandAction::SetFractalType(FractalType::Sierpinski2D),
        "Sierpinski Carpet (2D) fractal",
        vec!["sierpinski", "carpet"],
        Some("4"),
    );
    assert(c@.aliases =~= seq!["sierpinski"@, "carpet"@]);
    v.push(c);
    let c = catalog_command(
        "Tricorn (2D)",
        CommandCategory::Fractal,
        CommandAction::SetFractalType(FractalType::Tricorn2D),
        "Tricorn (2D) fractal",
        vec!["tricorn"],
        Some("5"),
    );
    assert(c@.aliases =~= seq!["tricorn"@]);
    v.push(c);
    let c = catalog_command(
        "Phoenix (2D)",
        CommandCategory::Fractal,
        CommandAction::SetFractalType(FractalType::Phoenix2D),
        "Phoenix (2D) fractal",
        vec!["phoenix"],
        Some("6"),
    );
    assert(c@.aliases =~= seq!["phoenix"@]);
    v.push(c);
    let c = catalog_command(
        "Celtic (2D)",
        CommandCategory::Fractal,
        CommandAction::SetFractalType(FractalType::Celtic2D),
        "Celtic (2D) fractal",
        vec!["celtic"],
        Some("7"),
    );
    assert(c@.aliases =~= seq!["celtic"@]);
    v.push(c);
    let c = catalog_command(
        "Newton (2D)",
        CommandCategory::Fractal,
        CommandAction::SetFractalType(FractalType::Newton2D),
        "Newton (2D) fractal",
        vec!["newton"],
        None,
    );
    assert(c@.aliases =~= seq!["newton"@]);
    v.push(c);
    let c = catalog_command(
        "Lyapunov (2D)",
        CommandCategory::Fractal,
        CommandAction::SetFractalType(FractalType::Lyapunov2D),
        "Lyapunov (2D) fractal",
        vec!["lyapunov"],
        None,
    );
    assert(c@.aliases =~= seq!["lyapunov"@]);
    v.push(c);
    let c = catalog_command(
        "Nova (2D)",
        CommandCategory::Fractal,
        CommandAction::SetFractalType(FractalType::Nova2D),
        "Nova (2D) fractal",
        vec!["nova"],
        None,
    );
    assert(c@.aliases =~= seq!["nova"@]);
    v.push(c);
    let c = catalog_command(
        "Magnet (2D)",
        CommandCategory::Fractal,
        CommandAction::SetFractalType(FractalType::Magnet2D),
        "Magnet (2D) fractal",
        vec!["magnet"],
        None,
    );
    assert(c@.aliases =~= seq!["magnet"@]);
    v.push(c);
    let c = catalog_command(
        "Collatz (2D)",
        CommandCategory::Fractal,
        CommandAction::SetFractalType(FractalType::Collatz2D),
        "Collatz (2D) fractal",
        vec!["collatz"],
        None,
    );
    assert(c@.aliases =~= seq!["collatz"@]);
    v.push(c);
    let c = catalog_command(
        "Menger Sponge (3D)",
        CommandCategory::Fractal,
        CommandAction::SetFractalType(FractalType::MengerSponge3D),
        "Menger Sponge (3D) fractal",
        vec!["menger", "sponge"],
        Some("F2"),
    );
    assert(c@.aliases =~= seq!["menger"@, "sponge"@]);
    v.push(c);
    let c = catalog_command(
        "Sierpinski Pyramid (3D)",
        CommandCategory::Fractal,
        CommandAction::SetFractalType(FractalType::SierpinskiPyramid3D),
        "Sierpinski Pyramid (3D) fractal",
        vec!["pyramid"],
        Some("F3"),
    );
    assert(c@.aliases =~= seq!["pyramid"@]);
    v.push(c);
    let c = catalog_command(
        "Julia Set (3D)",
        CommandCategory::Fractal,
        CommandAction::SetFractalType(FractalType::JuliaSet3D),
        "Julia Set (3D) fractal",
        vec!["julia3d"],
        Some("F4"),
    );
    assert(c@.aliases =~= seq!["julia3d"@]);
    v.push(c);
    let c = catalog_command(
        "Mandelbox (3D)",
        CommandCategory::Fractal,
        CommandAction::SetFractalType(FractalType::Mandelbox3D),
        "Mandelbox (3D) fractal",
        vec!["mandelbox", "box"],
        Some("F5"),
    );
    assert(c@.aliases =~= seq!["mandelbox"@, "box"@]);
    v.push(c);
    let c = catalog_command(
        "Octahedral IFS (3D)",
        CommandCategory::Fractal,
        CommandAction::SetFractalType(FractalType::OctahedralIFS3D),
        "Octahedral IFS (3D) fractal",
        vec!["octahedral", "oct"],
        Some("F7"),
    );
    assert(c@.aliases =~= seq!["octahedral"@, "oct"@]);
    v.push(c);
    let c = catalog_command(
        "Icosahedral IFS (3D)",
        CommandCategory::Fractal,
        CommandAction::SetFractalType(FractalType::IcosahedralIFS3D),
        "Icosahedral IFS (3D) fractal",
        vec!["icosahedral", "ico"],
        Some("F8"),
    );
    assert(c@.aliases =~= seq!["icosahedral"@, "ico"@]);
    v.push(c);
    let c = catalog_command(
        "Apollonian Gasket (3D)",
        CommandCategory::Fractal,
        CommandAction::SetFractalType(FractalType::ApollonianGasket3D),
        "Apollonian Gasket (3D) fractal",
        vec!["apollonian", "gasket"],
        Some("F9"),
    );
    assert(c@.aliases =~= seq!["apollonian"@, "gasket"@]);
    v.push(c);
    let c = catalog_command(
        "Hybrid Mandelbulb-Julia (3D)",
        CommandCategory::Fractal,
        CommandAction::SetFractalType(FractalType::HybridMandelbulbJulia3D),
        "Hybrid Mandelbulb-Julia (3D) fractal",
        vec!["hybrid"],
        Some("F11"),
    );
    assert(c@.aliases =~= seq!["hybrid"@]);
    v.push(c);
    let c = catalog_command(
        "Quaternion Cubic (3D)",
        CommandCategory::Fractal,
        CommandAction::SetFractalType(FractalType::QuaternionCubic3D),
        "Quaternion Cubic (3D) fractal",
        vec!["quaternion", "quat"],
        None,
    );
    assert(c@.aliases =~= seq!["quaternion"@, "quat"@]);
    v.push(c);
    let c = catalog_command(
        "Sierpinski Triangle (2D)",
        CommandCategory::Fractal,
        CommandAction::SetFractalType(FractalType::SierpinskiTriangle2D),
        "Sierpinski Triangle (2D) fractal",
        vec!["sierpinski triangle", "triangle"],
        None,
    );
    assert(c@.aliases =~= seq!["sierpinski triangle"@, "triangle"@]);
    v.push(c);
    let c = catalog_command(
        "Sierpinski Gasket (3D)",
        CommandCategory::Fractal,
        CommandAction::SetFractalType(FractalType::SierpinskiGasket3D),
        "Sierpinski Gasket (3D) fractal",
        vec!["sierpinski gasket", "tetrahedron"],
        None,
    );
    assert(c@.aliases =~= seq!["sierpinski gasket"@, "tetrahedron"@]);
    v.push(c);
    let c = catalog_command(
        "Hopalong (2D)",
        CommandCategory::Fractal,
        CommandAction::SetFractalType(FractalType::Hopalong2D),
        "Hopalong (2D) fractal",
        vec!["hopalong"],
        None,
    );
    assert(c@.aliases =~= seq!["hopalong"@]);
    v.push(c);
    let c = catalog_command(
        "Martin (2D)",
        CommandCategory::Fractal,
        CommandAction::SetFractalType(FractalType::Martin2D),
        "Martin (2D) fractal",
        vec!["martin"],
        None,
    );
    assert(c@.aliases =~= seq!["martin"@]);
    v.push(c);
    let c = catalog_command(
        "Gingerbreadman (2D)",
        CommandCategory::Fractal,
        CommandAction::SetFractalType(FractalType::Gingerbreadman2D),
        "Gingerbreadman (2D) fractal",
        vec!["gingerbreadman", "gingerbread"],
        None,
    );
    assert(c@.aliases =~= seq!["gingerbreadman"@, "gingerbread"@]);
    v.push(c);
    let c = catalog_command(
        "Chip (2D)",
        CommandCategory::Fractal,
        CommandAction::SetFractalType(FractalType::Chip2D),
        "Chip (2D) fractal",
        vec!["chip"],
        None,
    );
    assert(c@.aliases =~= seq!["chip"@]);
    v.push(c);
    let c = catalog_command(
        "Quadruptwo (2D)",
        CommandCategory::Fractal,
        CommandAction::SetFractalType(FractalType::Quadruptwo2D),
        "Quadruptwo (2D) fractal",
        vec!["quadruptwo"],
        None,
    );
    assert(c@.aliases =~= seq!["quadruptwo"@]);
    v.push(c);
    let c = catalog_command(
        "Threeply (2D)",
        CommandCategory::Fractal,
        CommandAction::SetFractalType(FractalType::Threeply2D),
        "Threeply (2D) fractal",
        vec!["threeply"],
        None,
    );
    assert(c@.aliases =~= seq!["threeply"@]);
    v.push(c);
    assert(command_views(v@) =~= spec_fractal_commands());
    v
}

/// The built-in commands for effects, color modes, level of detail, the interface, the camera, recording and settings, in catalog order.
pub open spec fn spec_other_commands() -> Seq<CommandView> {
    seq![
        command_view(
            "Toggle Ambient Occlusion"@,
            CommandCategory::Effect,
            CommandActionView::ToggleEffect(EffectType::AmbientOcclusion),
            "Toggle ambient occlusion effect"@,
            seq!["ao"@, "occlusion"@, "ambient"@],
            None,
        ),
        command_view(
            "Toggle Soft Shadows"@,
            CommandCategory::Effect,
            CommandActionView::ToggleEffect(EffectType::SoftShadows),
            "Toggle soft shadow rendering"@,
            seq!["soft shadows"@, "shadows soft"@],
            Some("B"@),
        ),
        command_view(
            "Toggle Depth of Field"@,
            CommandCategory::Effect,
            CommandActionView::ToggleEffect(EffectType::DepthOfField),
            "Toggle depth of field effect"@,
            seq!["dof"@, "depth of field"@, "blur"@],
            None,
        ),
        command_view(
            "Toggle Fog"@,
            CommandCategory::Effect,
            CommandActionView::ToggleEffect(EffectType::Fog),
            "Toggle atmospheric fog"@,
            seq!["fog"@, "atmosphere"@],
            None,
        ),
        command_view(
            "Toggle Bloom"@,
            CommandCategory::Effect,
            CommandActionView::ToggleEffect(EffectType::Bloom),
            "Toggle bloom/glow effect"@,
            seq!["bloom"@, "glow"@],
            None,
        ),
        command_view(
            "Toggle Vignette"@,
            CommandCategory::Effect,
            CommandActionView::ToggleEffect(EffectType::Vignette),
            "Toggle vignette edge darkening"@,
            seq!["vignette"@, "vign"@],
            None,
        ),
        command_view(
            "Toggle FXAA"@,
            CommandCategory::Effect,
            CommandActionView::ToggleEffect(EffectType::FXAA),
            "Toggle FXAA anti-aliasing"@,
            seq!["fxaa"@, "antialiasing"@, "aa"@],
            None,
        ),
        command_view(
            "Toggle Screen-Space Reflections"@,
            CommandCategory::Effect,
            CommandActionView::ToggleEffect(EffectType::SSR),
            "Toggle floor reflections"@,
            seq!["ssr"@, "reflections"@, "reflect"@],
            None,
        ),
        command_view(
            "Palette Coloring"@,
            CommandCategory::Color,
            CommandActionView::SetColorMode(ColorMode::Palette),
            "Switch to Palette Coloring mode"@,
            seq!["palette"@, "pal"@],
            None,
        ),
        command_view(
            "Normal Visualization"@,
            CommandCategory::Color,
            CommandActionView::SetColorMode(ColorMode::Normals),
            "Switch to Normal Visualization mode"@,
            seq!["normals"@, "normal"@],
            None,
        ),
        command_view(
            "Ray Steps Visualization"@,
            CommandCategory::Color,
            CommandActionView::SetColorMode(ColorMode::RaySteps),
            "Switch to Ray Steps Visualization mode"@,
            seq!["ray steps"@, "steps"@],
            None,
        ),
        command_view(
            "Distance Field Debug"@,
            CommandCategory::Color,
            CommandActionView::SetColorMode(ColorMode::DistanceField),
            "Switch to Distance Field Debug mode"@,
            seq!["distance field"@, "df"@, "debug df"@],
            None,
        ),
        command_view(
            "Depth Debug"@,
            CommandCategory::Color,
            CommandActionView::SetColorMode(ColorMode::Depth),
            "Switch to Depth Debug mode"@,
            seq!["depth"@, "debug depth"@],
            None,
        ),
        command_view(
            "Convergence Debug"@,
            CommandCategory::Color,
            CommandActionView::SetColorMode(ColorMode::Convergence),
            "Switch to Convergence Debug mode"@,
            seq!["convergence"@, "debug conv"@],
            None,
        ),
        command_view(
            "Lighting Only Debug"@,
            CommandCategory::Color,
            CommandActionView::SetColorMode(ColorMode::LightingOnly),
            "Switch to Lighting Only Debug mode"@,
            seq!["lighting"@, "debug light"@],
            None,
        ),
        command_view(
            "Shadow Map Debug"@,
            CommandCategory::Color,
            CommandActionView::SetColorMode(ColorMode::ShadowMap),
            "Switch to Shadow Map Debug mode"@,
            seq!["shadow map"@, "debug shadow"@],
            None,
        ),
        command_view(
            "Camera Distance LOD Debug"@,
            CommandCategory::Color,
            CommandActionView::SetColorMode(ColorMode::CameraDistanceLOD),
            "Switch to Camera Distance LOD Debug mode"@,
            seq!["lod distance"@, "debug lod"@],
            None,
        ),
        command_view(
            "Enable LOD System"@,
            CommandCategory::LOD,
            CommandActionView::ToggleLOD,
            "Toggle adaptive Level of Detail system"@,
            seq!["lod"@, "lod on"@, "lod enable"@, "enable lod"@],
            None,
        ),
        command_view(
            "LOD Debug Visualization"@,
            CommandCategory::LOD,
            CommandActionView::ToggleLODDebug,
            "Toggle LOD debug overlay"@,
            seq!["lod debug"@, "debug lod"@, "lod viz"@],
            None,
        ),
        command_view(
            "LOD: Balanced"@,
            CommandCategory::LOD,
            CommandActionView::SetLODProfile(LODProfile::Balanced),
            "Set LOD profile to LOD: Balanced"@,
            seq!["lod balanced"@, "balanced"@],
            None,
        ),
        command_view(
            "LOD: Quality First"@,
            CommandCategory::LOD,
            CommandActionView::SetLODProfile(LODProfile::QualityFirst),
            "Set LOD profile to LOD: Quality First"@,
            seq!["lod quality"@, "quality first"@],
            None,
        ),
        command_view(
            "LOD: Performance First"@,
            CommandCategory::LOD,
            CommandActionView::SetLODProfile(LODProfile::PerformanceFirst),
            "Set LOD profile to LOD: Performance First"@,
            seq!["lod performance"@, "performance first"@],
            None,
        ),
        command_view(
            "LOD: Distance Only"@,
            CommandCategory::LOD,
            CommandActionView::SetLODProfile(LODProfile::DistanceOnly),
            "Set LOD profile to LOD: Distance Only"@,
            seq!["lod distance only"@, "distance only"@],
            None,
        ),
        command_view(
            "LOD: Motion Only"@,
            CommandCategory::LOD,
            CommandActionView::SetLODProfile(LODProfile::MotionOnly),
            "Set LOD profile to LOD: Motion Only"@,
            seq!["lod motion only"@, "motion only"@],
            None,
        ),
        command_view(
            "Toggle UI"@,
            CommandCategory::UI,
            CommandActionView::ToggleUI,
            "Show/hide the user interface"@,
            seq!["ui"@, "hide ui"@, "show ui"@, "toggle ui"@],
            Some("H"@),
        ),
        command_view(
            "Toggle Performance Overlay"@,
            CommandCategory::UI,
            CommandActionView::ToggleStats,
            "Show/hide FPS and performance graph"@,
            seq!["stats"@, "fps"@, "performance"@, "perf"@],
            Some("V"@),
        ),
        command_view(
            "Toggle Theme"@,
            CommandCategory::UI,
            CommandActionView::CycleTheme,
            "Switch between dark and light themes"@,
            seq!["theme"@, "dark"@, "light"@],
            None,
        ),
        command_view(
            "Reset View"@,
            CommandCategory::Camera,
            CommandActionView::ResetView,
            "Reset camera to default position"@,
            seq!["reset"@, "reset camera"@, "reset view"@],
            Some("R"@),
        ),
        command_view(
            "Start MP4 Recording"@,
            CommandCategory::Recording,
            CommandActionView::StartRecording("mp4"@),
            "Start recording video as MP4"@,
            seq!["record mp4"@, "mp4"@, "video"@],
            None,
        ),
        command_view(
            "Start WebM Recording"@,
            CommandCategory::Recording,
            CommandActionView::StartRecording("webm"@),
            "Start recording video as WebM"@,
            seq!["record webm"@, "webm"@],
            None,
        ),
        command_view(
            "Start GIF Recording"@,
            CommandCategory::Recording,
            CommandActionView::StartRecording("gif"@),
            "Start recording animated GIF"@,
            seq!["record gif"@, "gif"@, "animate"@],
            None,
        ),
        command_view(
            "Stop Recording"@,
            CommandCategory::Recording,
            CommandActionView::StopRecording,
            "Stop current recording"@,
            seq!["stop"@, "stop recording"@, "stop video"@],
            None,
        ),
        command_view(
            "Take Screenshot"@,
            CommandCategory::Recording,
            CommandActionView::Screenshot,
            "Save current view as PNG image"@,
            seq!["screenshot"@, "capture"@, "snap"@, "save image"@],
            None,
        ),
        command_view(
            "Save Preset"@,
            CommandCategory::Settings,
            CommandActionView::SavePreset,
            "Save current settings as a preset"@,
            seq!["save"@, "save preset"@, "preset save"@],
            None,
        ),
        command_view(
            "Export Settings"@,
            CommandCategory::Settings,
            CommandActionView::ExportSettings,
            "Export current settings to JSON file"@,
            seq!["export"@, "export settings"@, "save settings"@],
            None,
        ),
        command_view(
            "Import Settings"@,
            CommandCategory::Settings,
            CommandActionView::ImportSettings,
            "Import settings from JSON file"@,
            seq!["import"@, "import settings"@, "load settings"@],
            None,
        ),
        command_view(
            "Reset All Settings"@,
            CommandCategory::Settings,
            CommandActionView::ResetAll,
            "Reset all parameters to defaults"@,
            seq!["reset all"@, "defaults"@, "reset settings"@],
            None,
        ),
    ]
}

#[verifier::rlimit(50)]
fn other_commands() -> (v: Vec<Command>)
    ensures
        command_views(v@) == spec_other_commands(),
{
    let mut v: Vec<Command> = Vec::new();
    let c = catalog_command(
        "Toggle Ambient Occlusion",
        CommandCategory::Effect,
        CommandAction::ToggleEffect(EffectType::AmbientOcclusion),
        "Toggle ambient occlusion effect",
        vec!["ao", "occlusion", "ambient"],
        None,
    );
    assert(c@.aliases =~= seq!["ao"@, "occlusion"@, "ambient"@]);
    v.push(c);
    let c = catalog_command(
        "Toggle Soft Shadows",
        CommandCategory::Effect,
        CommandAction::ToggleEffect(EffectType::SoftShadows),
        "Toggle soft shadow rendering",
        vec!["soft shadows", "shadows soft"],
        Some("B"),
    );
    assert(c@.aliases =~= seq!["soft shadows"@, "shadows soft"@]);
    v.push(c);
    let c = catalog_command(
        "Toggle Depth of Field",
        CommandCategory::Effect,
        CommandAction::ToggleEffect(EffectType::DepthOfField),
        "Toggle depth of field effect",
        vec!["dof", "depth of field", "blur"],
        None,
    );
    assert(c@.aliases =~= seq!["dof"@, "depth of field"@, "blur"@]);
    v.push(c);
    let c = catalog_command(
        "Toggle Fog",
        CommandCategory::Effect,
        CommandAction::ToggleEffect(EffectType::Fog),
        "Toggle atmospheric fog",
        vec!["fog", "atmosphere"],
        None,
    );
    assert(c@.aliases =~= seq!["fog"@, "atmosphere"@]);
    v.push(c);
    let c = catalog_command(
        "Toggle Bloom",
        CommandCategory::Effect,
        CommandAction::ToggleEffect(EffectType::Bloom),
        "Toggle bloom/glow effect",
        vec!["bloom", "glow"],
        None,
    );
    assert(c@.aliases =~= seq!["bloom"@, "glow"@]);
    v.push(c);
    let c = catalog_command(
        "Toggle Vignette",
        CommandCategory::Effect,
        CommandAction::ToggleEffect(EffectType::Vignette),
        "Toggle vignette edge darkening",
        vec!["vignette", "vign"],
        None,
    );
    assert(c@.aliases =~= seq!["vignette"@, "vign"@]);
    v.push(c);
    let c = catalog_command(
        "Toggle FXAA",
        CommandCategory::Effect,
        CommandAction::ToggleEffect(EffectType::FXAA),
        "Toggle FXAA anti-aliasing",
        vec!["fxaa", "antialiasing", "aa"],
        None,
    );
    assert(c@.aliases =~= seq!["fxaa"@, "antialiasing"@, "aa"@]);
    v.push(c);
    let c = catalog_command(
        "Toggle Screen-Space Reflections",
        CommandCategory::Effect,
        CommandAction::ToggleEffect(EffectType::SSR),
        "Toggle floor reflections",
        vec!["ssr", "reflections", "reflect"],
        None,
    );
    assert(c@.aliases =~= seq!["ssr"@, "reflections"@, "reflect"@]);
    v.push(c);
    let c = catalog_command(
        "Palette Coloring",
        CommandCategory::Color,
        CommandAction::SetColorMode(ColorMode::Palette),
        "Switch to Palette Coloring mode",
        vec!["palette", "pal"],
        None,
    );
    assert(c@.aliases =~= seq!["palette"@, "pal"@]);
    v.push(c);
    let c = catalog_command(
        "Normal Visualization",
        CommandCategory::Color,
        CommandAction::SetColorMode(ColorMode::Normals),
        "Switch to Normal Visualization mode",
        vec!["normals", "normal"],
        None,
    );
    assert(c@.aliases =~= seq!["normals"@, "normal"@]);
    v.push(c);
    let c = catalog_command(
        "Ray Steps Visualization",
        CommandCategory::Color,
        CommandAction::SetColorMode(ColorMode::RaySteps),
        "Switch to Ray Steps Visualization mode",
        vec!["ray steps", "steps"],
        None,
    );
    assert(c@.aliases =~= seq!["ray steps"@, "steps"@]);
    v.push(c);
    let c = catalog_command(
        "Distance Field Debug",
        CommandCategory::Color,
        CommandAction::SetColorMode(ColorMode::DistanceField),
        "Switch to Distance Field Debug mode",
        vec!["distance field", "df", "debug df"],
        None,
    );
    assert(c@.aliases =~= seq!["distance field"@, "df"@, "debug df"@]);
    v.push(c);
    let c = catalog_command(
        "Depth Debug",
        CommandCategory::Color,
        CommandAction::SetColorMode(ColorMode::Depth),
        "Switch to Depth Debug mode",
        vec!["depth", "debug depth"],
        None,
    );
    assert(c@.aliases =~= seq!["depth"@, "debug depth"@]);
    v.push(c);
    let c = catalog_command(
        "Convergence Debug",
        CommandCategory::Color,
        CommandAction::SetColorMode(ColorMode::Convergence),
        "Switch to Convergence Debug mode",
        vec!["convergence", "debug conv"],
        None,
    );
    assert(c@.aliases =~= seq!["convergence"@, "debug conv"@]);
    v.push(c);
    let c = catalog_command(
        "Lighting Only Debug",
        CommandCategory::Color,
        CommandAction::SetColorMode(ColorMode::LightingOnly),
        "Switch to Lighting Only Debug mode",
        vec!["lighting", "debug light"],
        None,
    );
    assert(c@.aliases =~= seq!["lighting"@, "debug light"@]);
    v.push(c);
    let c = catalog_command(
        "Shadow Map Debug",
        CommandCategory::Color,
        CommandAction::SetColorMode(ColorMode::ShadowMap),
        "Switch to Shadow Map Debug mode",
        vec!["shadow map", "debug shadow"],
        None,
    );
    assert(c@.aliases =~= seq!["shadow map"@, "debug shadow"@]);
    v.push(c);
    let c = catalog_command(
        "Camera Distance LOD Debug",
        CommandCategory::Color,
        CommandAction::SetColorMode(ColorMode::CameraDistanceLOD),
        "Switch to Camera Distance LOD Debug mode",
        vec!["lod distance", "debug lod"],
        None,
    );
    assert(c@.aliases =~= seq!["lod distance"@, "debug lod"@]);
    v.push(c);
    let c = catalog_command(
        "Enable LOD System",
        CommandCategory::LOD,
        CommandAction::ToggleLOD,
        "Toggle adaptive Level of Detail system",
        vec!["lod", "lod on", "lod enable", "enable lod"],
        None,
    );
    assert(c@.aliases =~= seq!["lod"@, "lod on"@, "lod enable"@, "enable lod"@]);
    v.push(c);
    let c = catalog_command(
        "LOD Debug Visualization",
        CommandCategory::LOD,
        CommandAction::ToggleLODDebug,
        "Toggle LOD debug overlay",
        vec!["lod debug", "debug lod", "lod viz"],
        None,
    );
    assert(c@.aliases =~= seq!["lod debug"@, "debug lod"@, "lod viz"@]);
    v.push(c);
    let c = catalog_command(
        "LOD: Balanced",
        CommandCategory::LOD,
        CommandAction::SetLODProfile(LODProfile::Balanced),
        "Set LOD profile to LOD: Balanced",
        vec!["lod balanced", "balanced"],
        None,
    );
    assert(c@.aliases =~= seq!["lod balanced"@, "balanced"@]);
    v.push(c);
    let c = catalog_command(
        "LOD: Quality First",
        CommandCategory::LOD,
        CommandAction::SetLODProfile(LODProfile::QualityFirst),
        "Set LOD profile to LOD: Quality First",
        vec!["lod quality", "quality first"],
        None,
    );
    assert(c@.aliases =~= seq!["lod quality"@, "quality first"@]);
    v.push(c);
    let c = catalog_command(
        "LOD: Performance First",
        CommandCategory::LOD,
        CommandAction::SetLODProfile(LODProfile::PerformanceFirst),
        "Set LOD profile to LOD: Performance First",
        vec!["lod performance", "performance first"],
        None,
    );
    assert(c@.aliases =~= seq!["lod performance"@, "performance first"@]);
    v.push(c);
    let c = catalog_command(
        "LOD: Distance Only",
        CommandCategory::LOD,
        CommandAction::SetLODProfile(LODProfile::DistanceOnly),
        "Set LOD profile to LOD: Distance Only",
        vec!["lod distance only", "distance only"],
        None,
    );
    assert(c@.aliases =~= seq!["lod distance only"@, "distance only"@]);
    v.push(c);
    let c = catalog_command(
        "LOD: Motion Only",
        CommandCategory::LOD,
        CommandAction::SetLODProfile(LODProfile::MotionOnly),
        "Set LOD profile to LOD: Motion Only",
        vec!["lod motion only", "motion only"],
        None,
    );
    assert(c@.aliases =~= seq!["lod motion only"@, "motion only"@]);
    v.push(c);
    let c = catalog_command(
        "Toggle UI",
        CommandCategory::UI,
        CommandAction::ToggleUI,
        "Show/hide the user interface",
        vec!["ui", "hide ui", "show ui", "toggle ui"],
        Some("H"),
    );
    assert(c@.aliases =~= seq!["ui"@, "hide ui"@, "show ui"@, "toggle ui"@]);
    v.push(c);
    let c = catalog_command(
        "Toggle Performance Overlay",
        CommandCategory::UI,
        CommandAction::ToggleStats,
        "Show/hide FPS and performance graph",
        vec!["stats", "fps", "performance", "perf"],
        Some("V"),
    );
    assert(c@.aliases =~= seq!["stats"@, "fps"@, "performance"@, "perf"@]);
    v.push(c);
    let c = catalog_command(
        "Toggle Theme",
        CommandCategory::UI,
        CommandAction::CycleTheme,
        "Switch between dark and light themes",
        vec!["theme", "dark", "light"],
        None,
    );
    assert(c@.aliases =~= seq!["theme"@, "dark"@, "light"@]);
    v.push(c);
    let c = catalog_command(
        "Reset View",
        CommandCategory::Camera,
        CommandAction::ResetView,
        "Reset camera to default position",
        vec!["reset", "reset camera", "reset view"],
        Some("R"),
    );
    assert(c@.aliases =~= seq!["reset"@, "reset camera"@, "reset view"@]);
    v.push(c);
    let c = catalog_command(
        "Start MP4 Recording",
        CommandCategory::Recording,
        CommandAction::StartRecording(owned("mp4")),
        "Start recording video as MP4",
        vec!["record mp4", "mp4", "video"],
        None,
    );
    assert(c@.aliases =~= seq!["record mp4"@, "mp4"@, "video"@]);
    v.push(c);
    let c = catalog_command(
        "Start WebM Recording",
        CommandCategory::Recording,
        CommandAction::StartRecording(owned("webm")),
        "Start recording video as WebM",
        vec!["record webm", "webm"],
        None,
    );
    assert(c@.aliases =~= seq!["record webm"@, "webm"@]);
    v.push(c);
    let c = catalog_command(
        "Start GIF Recording",
        CommandCategory::Recording,
        CommandAction::StartRecording(owned("gif")),
        "Start recording animated GIF",
        vec!["record gif", "gif", "animate"],
        None,
    );
    assert(c@.aliases =~= seq!["record gif"@, "gif"@, "animate"@]);
    v.push(c);
    let c = catalog_command(
        "Stop Recording",
        CommandCategory::Recording,
        CommandAction::StopRecording,
        "Stop current recording",
        vec!["stop", "stop recording", "stop video"],
        None,
    );
    assert(c@.aliases =~= seq!["stop"@, "stop recording"@, "stop video"@]);
    v.push(c);
    let c = catalog_command(
        "Take Screenshot",
        CommandCategory::Recording,
        CommandAction::Screenshot,
        "Save current view as PNG image",
        vec!["screenshot", "capture", "snap", "save image"],
        None,
    );
    assert(c@.aliases =~= seq!["screenshot"@, "capture"@, "snap"@, "save image"@]);
    v.push(c);
    let c = catalog_command(
        "Save Preset",
        CommandCategory::Settings,
        CommandAction::SavePreset,
        "Save current settings as a preset",
        vec!["save", "save preset", "preset save"],
        None,
    );
    assert(c@.aliases =~= seq!["save"@, "save preset"@, "preset save"@]);
    v.push(c);
    let c = catalog_command(
        "Export Settings",
        CommandCategory::Settings,
        CommandAction::ExportSettings,
        "Export current settings to JSON file",
        vec!["export", "export settings", "save settings"],
        None,
    );
    assert(c@.aliases =~= seq!["export"@, "export settings"@, "save settings"@]);
    v.push(c);
    let c = catalog_command(
        "Import Settings",
        CommandCategory::Settings,
        CommandAction::ImportSettings,
        "Import settings from JSON file",
        vec!["import", "import settings", "load settings"],
        None,
    );
    assert(c@.aliases =~= seq!["import"@, "import settings"@, "load settings"@]);
    v.push(c);
    let c = catalog_command(
        "Reset All Settings",
        CommandCategory::Settings,
        CommandAction::ResetAll,
        "Reset all parameters to defaults",
        vec!["reset all", "defaults", "reset settings"],
        None,
    );
    assert(c@.aliases =~= seq!["reset all"@, "defaults"@, "reset settings"@]);
    v.push(c);
    assert(command_views(v@) =~= spec_other_commands());
    v
}

/// The built-in catalog: a command for each fractal type, then the effect,
/// color-mode, level-of-detail, interface, camera, recording and settings
/// commands.
pub open spec fn spec_builtin_catalog() -> Seq<CommandView> {
    spec_fractal_commands() + spec_other_commands()
}

/// Number of commands in the built-in catalog.
pub const BUILTIN_COMMAND_COUNT: usize = 68;

/// Number of fractal-type commands, which open the catalog.
pub const FRACTAL_COMMAND_COUNT: usize = 31;

impl CommandPalette {
    /// The built-in catalog.
    fn build_commands() -> (commands: Vec<Command>)
        ensures
            command_views(commands@) == spec_builtin_catalog(),
    {
        let mut commands = fractal_commands();
        let mut rest = other_commands();
        let ghost a = commands@;
        let ghost b = rest@;
        commands.append(&mut rest);
        assert(command_views(commands@) =~= command_views(a) + command_views(b));
        commands
    }
}


/// Every fractal type of the escape-time, ray-marched and 2D-attractor
/// families (shader identifiers 0 to 24 and 26 to 31) has a command in the
/// built-in catalog that switches to it.
pub proof fn lemma_catalog_covers_fractal_types(t: FractalType)
    requires
        t.spec_gpu_id() <= 24 || (26 <= t.spec_gpu_id() <= 31),
    ensures
        exists|i: int|
            0 <= i < spec_builtin_catalog().len() && (#[trigger] spec_builtin_catalog()[i]).category
                == CommandCategory::Fractal && spec_builtin_catalog()[i].action == CommandActionView::SetFractalType(t),
{
    match t {
        FractalType::Mandelbrot2D => {
            assert(spec_builtin_catalog()[0] == spec_fractal_commands()[0]);
        },
        FractalType::Julia2D => {
            assert(spec_builtin_catalog()[1] == spec_fractal_commands()[1]);
        },
        FractalType::BurningShip2D => {
            assert(spec_builtin_catalog()[2] == spec_fractal_commands()[2]);
        },
        FractalType::Mandelbulb3D => {
            assert(spec_builtin_catalog()[3] == spec_fractal_commands()[3]);
        },
        FractalType::Kleinian3D => {
            assert(spec_builtin_catalog()[4] == spec_fractal_commands()[4]);
        },
        FractalType::Sierpinski2D => {
            assert(spec_builtin_catalog()[5] == spec_fractal_commands()[5]);
        },
        FractalType::Tricorn2D => {
            assert(spec_builtin_catalog()[6] == spec_fractal_commands()[6]);
        },
        FractalType::Phoenix2D => {
            assert(spec_builtin_catalog()[7] == spec_fractal_commands()[7]);
        },
        FractalType::Celtic2D => {
            assert(spec_builtin_catalog()[8] == spec_fractal_commands()[8]);
        },
        FractalType::Newton2D => {
            assert(spec_builtin_catalog()[9] == spec_fractal_commands()[9]);
        },
        FractalType::Lyapunov2D => {
            assert(spec_builtin_catalog()[10] == spec_fractal_commands()[10]);
        },
        FractalType::Nova2D => {
            assert(spec_builtin_catalog()[11] == spec_fractal_commands()[11]);
        },
        FractalType::Magnet2D => {
            assert(spec_builtin_catalog()[12] == spec_fractal_commands()[12]);
        },
        FractalType::Collatz2D => {
            assert(spec_builtin_catalog()[13] == spec_fractal_commands()[13]);
        },
        FractalType::MengerSponge3D => {
            assert(spec_builtin_catalog()[14] == spec_fractal_commands()[14]);
        },
        FractalType::SierpinskiPyramid3D => {
            assert(spec_builtin_catalog()[15] == spec_fractal_commands()[15]);
        },
        FractalType::JuliaSet3D => {
            assert(spec_builtin_catalog()[16] == spec_fractal_commands()[16]);
        },
        FractalType::Mandelbox3D => {
            assert(spec_builtin_catalog()[17] == spec_fractal_commands()[17]);
        },
        FractalType::OctahedralIFS3D => {
            assert(spec_builtin_catalog()[18] == spec_fractal_commands()[18]);
        },
        FractalType::IcosahedralIFS3D => {
            assert(spec_builtin_catalog()[19] == spec_fractal_commands()[19]);
        },
        FractalType::ApollonianGasket3D => {
            assert(spec_builtin_catalog()[20] == spec_fractal_commands()[20]);
        },
        FractalType::HybridMandelbulbJulia3D => {
            assert(spec_builtin_catalog()[21] == spec_fractal_commands()[21]);
        },
        FractalType::QuaternionCubic3D => {
            assert(spec_builtin_catalog()[22] == spec_fractal_commands()[22]);
        },
        FractalType::SierpinskiTriangle2D => {
            assert(spec_builtin_catalog()[23] == spec_fractal_commands()[23]);
        },
        FractalType::SierpinskiGasket3D => {
            assert(spec_builtin_catalog()[24] == spec_fractal_commands()[24]);
        },
        FractalType::Hopalong2D => {
            assert(spec_builtin_catalog()[25] == spec_fractal_commands()[25]);
        },
        FractalType::Martin2D => {
            assert(spec_builtin_catalog()[26] == spec_fractal_commands()[26]);
        },
        FractalType::Gingerbreadman2D => {
            assert(spec_builtin_catalog()[27] == spec_fractal_commands()[27]);
        },
        FractalType::Chip2D => {
            assert(spec_builtin_catalog()[28] == spec_fractal_commands()[28]);
        },
        FractalType::Quadruptwo2D => {
            assert(spec_builtin_catalog()[29] == spec_fractal_commands()[29]);
        },
        FractalType::Threeply2D => {
            assert(spec_builtin_catalog()[30] == spec_fractal_commands()[30]);
        },
        _ => {},
    }
}

/// The category labels: each category's name, and its icon (a single
/// emoji, followed by the emoji presentation selector for UI and
/// Settings).
pub proof fn lemma_category_labels()
    ensures
        CommandCategory::Fractal.spec_name() == seq!['F', 'r', 'a', 'c', 't', 'a', 'l'],
        CommandCategory::Fractal.spec_icon() == seq!['\u{1F537}'],
        CommandCategory::Preset.spec_name() == seq!['P', 'r', 'e', 's', 'e', 't'],
        CommandCategory::Preset.spec_icon() == seq!['\u{1F4CB}'],
        CommandCategory::Effect.spec_name() == seq!['E', 'f', 'f', 'e', 'c', 't'],
        CommandCategory::Effect.spec_icon() == seq!['\u{2728}'],
        CommandCategory::Color.spec_name() == seq!['C', 'o', 'l', 'o', 'r'],
        CommandCategory::Color.spec_icon() == seq!['\u{1F3A8}'],
        CommandCategory::Camera.spec_name() == seq!['C', 'a', 'm', 'e', 'r', 'a'],
        CommandCategory::Camera.spec_icon() == seq!['\u{1F4F7}'],
        CommandCategory::Recording.spec_name() == seq!['R', 'e', 'c', 'o', 'r', 'd', 'i', 'n', 'g'],
        CommandCategory::Recording.spec_icon() == seq!['\u{1F3AC}'],
        CommandCategory::LOD.spec_name() == seq!['L', 'O', 'D'],
        CommandCategory::LOD.spec_icon() == seq!['\u{26A1}'],
        CommandCategory::UI.spec_name() == seq!['U', 'I'],
        CommandCategory::UI.spec_icon() == seq!['\u{1F5A5}', '\u{FE0F}'],
        CommandCategory::Settings.spec_name() == seq!['S', 'e', 't', 't', 'i', 'n', 'g', 's'],
        CommandCategory::Settings.spec_icon() == seq!['\u{2699}', '\u{FE0F}'],
        CommandCategory::Debug.spec_name() == seq!['D', 'e', 'b', 'u', 'g'],
        CommandCategory::Debug.spec_icon() == seq!['\u{1F50D}'],
{
    reveal_strlit("Fractal");
    assert(CommandCategory::Fractal.spec_name() =~= seq!['F', 'r', 'a', 'c', 't', 'a', 'l']);
    reveal_strlit("\u{1F537}");
    assert(CommandCategory::Fractal.spec_icon() =~= seq!['\u{1F537}']);
    reveal_strlit("Preset");
    assert(CommandCategory::Preset.spec_name() =~= seq!['P', 'r', 'e', 's', 'e', 't']);
    reveal_strlit("\u{1F4CB}");
    assert(CommandCategory::Preset.spec_icon() =~= seq!['\u{1F4CB}']);
    reveal_strlit("Effect");
    assert(CommandCategory::Effect.spec_name() =~= seq!['E', 'f', 'f', 'e', 'c', 't']);
    reveal_strlit("\u{2728}");
    assert(CommandCategory::Effect.spec_icon() =~= seq!['\u{2728}']);
    reveal_strlit("Color");
    assert(CommandCategory::Color.spec_name() =~= seq!['C', 'o', 'l', 'o', 'r']);
    reveal_strlit("\u{1F3A8}");
    assert(CommandCategory::Color.spec_icon() =~= seq!['\u{1F3A8}']);
    reveal_strlit("Camera");
    assert(CommandCategory::Camera.spec_name() =~= seq!['C', 'a', 'm', 'e', 'r', 'a']);
    reveal_strlit("\u{1F4F7}");
    assert(CommandCategory::Camera.spec_icon() =~= seq!['\u{1F4F7}']);
    reveal_strlit("Recording");
    assert(CommandCategory::Recording.spec_name() =~= seq!['R', 'e', 'c', 'o', 'r', 'd', 'i', 'n', 'g']);
    reveal_strlit("\u{1F3AC}");
    assert(CommandCategory::Recording.spec_icon() =~= seq!['\u{1F3AC}']);
    reveal_strlit("LOD");
    assert(CommandCategory::LOD.spec_name() =~= seq!['L', 'O', 'D']);
    reveal_strlit("\u{26A1}");
    assert(CommandCategory::LOD.spec_icon() =~= seq!['\u{26A1}']);
    reveal_strlit("UI");
    assert(CommandCategory::UI.spec_name() =~= seq!['U', 'I']);
    reveal_strlit("\u{1F5A5}\u{FE0F}");
    assert(CommandCategory::UI.spec_icon() =~= seq!['\u{1F5A5}', '\u{FE0F}']);
    reveal_strlit("Settings");
    assert(CommandCategory::Settings.spec_name() =~= seq!['S', 'e', 't', 't', 'i', 'n', 'g', 's']);
    reveal_strlit("\u{2699}\u{FE0F}");
    assert(CommandCategory::Settings.spec_icon() =~= seq!['\u{2699}', '\u{FE0F}']);
    reveal_strlit("Debug");
    assert(CommandCategory::Debug.spec_name() =~= seq!['D', 'e', 'b', 'u', 'g']);
    reveal_strlit("\u{1F50D}");
    assert(CommandCategory::Debug.spec_icon() =~= seq!['\u{1F50D}']);
}

} // verus!
