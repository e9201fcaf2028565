//! Reproducible load for profiling.
//!
//! Placement is driven by a fixed-seed generator, so that the same request lays
//! out the same scene on every machine: a profile from today is comparable with
//! one from six months ago. Everything is drawn as twenty-four random bits; what
//! distance they stand for is floating point and decided by whoever spawns.

use crate::text::{count_of, parse_count, same, trim, trimmed};
use vstd::prelude::*;
use vstd::string::*;

verus! {

/// Fixed so that the same request lays out identically everywhere, forever.
pub const SEED: u64 = 0x0DDB_A110_C0FF_EE00;

/// What the generator's state moves by.
pub const GAMMA: u64 = 0x9E37_79B9_7F4A_7C15;

pub const FIRST_FACTOR: u64 = 0xBF58_476D_1CE4_E5B9;

pub const SECOND_FACTOR: u64 = 0x94D0_49BB_1331_11EB;

/// Layers of wall in the occlusion rig: enough that the deepest props are behind
/// five independent walls.
pub const LAYERS: usize = 6;

/// Panels across and up in one layer's wall.
pub const PANEL_COLS: usize = 4;

pub const PANEL_ROWS: usize = 3;

/// Places for a panel in one layer's wall.
pub const PANELS: usize = 12;

/// A panel is left out when its twenty-four bits are below this: a quarter of the
/// time. With no gaps the answer is "everything past the first layer".
pub const GAP_BELOW: u32 = 0x40_0000;

/// How much load to add. Zero in a field means that kind is skipped entirely.
#[derive(Clone, Copy, Debug, PartialEq, Eq, Structural)]
pub struct StressSpec {
    pub meshes: usize,
    pub colliders: usize,
    pub scripts: usize,
    /// Props for the occlusion rig: small objects packed behind walls that span
    /// the screen.
    pub occluded: usize,
}

/// No load at all.
pub open spec fn no_load() -> StressSpec {
    StressSpec { meshes: 0, colliders: 0, scripts: 0, occluded: 0 }
}

impl Default for StressSpec {
    fn default() -> (spec: Self)
        ensures
            spec == no_load(),
    {
        StressSpec { meshes: 0, colliders: 0, scripts: 0, occluded: 0 }
    }
}

/// Why a request for load cannot be read, with the part that is wrong.
#[derive(Debug)]
pub enum SpecError {
    /// A field that is no `key=value`.
    NotAPair(String),
    /// A value that is no count.
    NotACount(String),
    /// A key that names no kind of load.
    UnknownKey(String),
}

/// An error, as values.
pub enum SpecErrorView {
    NotAPair(Seq<char>),
    NotACount(Seq<char>),
    UnknownKey(Seq<char>),
}

impl SpecError {
    pub open spec fn view(&self) -> SpecErrorView {
        match self {
            SpecError::NotAPair(field) => SpecErrorView::NotAPair(field@),
            SpecError::NotACount(value) => SpecErrorView::NotACount(value@),
            SpecError::UnknownKey(key) => SpecErrorView::UnknownKey(key@),
        }
    }
}

/// How much of a text comes before the first `mark` in it.
pub open spec fn before_mark(text: Seq<char>, mark: char) -> int
    decreases text.len(),
{
    if text.len() == 0 || text[0] == mark {
        0
    } else {
        1 + before_mark(text.drop_first(), mark)
    }
}

/// The parts of a text between its commas.
pub open spec fn fields_of(text: Seq<char>) -> Seq<Seq<char>>
    decreases text.len(),
    via fields_of_decreases
{
    let end = before_mark(text, ',');
    if end >= text.len() {
        seq![text]
    } else {
        seq![text.subrange(0, end)] + fields_of(text.subrange(end + 1, text.len() as int))
    }
}

#[via_fn]
proof fn fields_of_decreases(text: Seq<char>) {
    before_mark_bounds(text, ',');
}

proof fn before_mark_bounds(text: Seq<char>, mark: char)
    ensures
        0 <= before_mark(text, mark) <= text.len(),
    decreases text.len(),
{
    if text.len() > 0 && text[0] != mark {
        before_mark_bounds(text.drop_first(), mark);
    }
}

/// What one field adds to a request.
pub open spec fn with_field(spec: StressSpec, field: Seq<char>) -> Result<
    StressSpec,
    SpecErrorView,
> {
    let end = before_mark(field, '=');
    if end >= field.len() {
        Err(SpecErrorView::NotAPair(field))
    } else {
        let key = trimmed(field.subrange(0, end));
        let value = field.subrange(end + 1, field.len() as int);
        match count_of(trimmed(value)) {
            None => Err(SpecErrorView::NotACount(value)),
            Some(count) => if key == "meshes"@ {
                Ok(StressSpec { meshes: count, ..spec })
            } else if key == "colliders"@ {
                Ok(StressSpec { colliders: count, ..spec })
            } else if key == "scripts"@ {
                Ok(StressSpec { scripts: count, ..spec })
            } else if key == "occluded"@ {
                Ok(StressSpec { occluded: count, ..spec })
            } else {
                Err(SpecErrorView::UnknownKey(key))
            },
        }
    }
}

/// What the first `count` fields add up to: the first one that is wrong spoils
/// the whole request.
pub open spec fn with_fields(fields: Seq<Seq<char>>, count: int) -> Result<
    StressSpec,
    SpecErrorView,
>
    decreases count,
{
    if count <= 0 {
        Ok(no_load())
    } else {
        match with_fields(fields, count - 1) {
            Ok(spec) => with_field(spec, fields[count - 1]),
            Err(error) => Err(error),
        }
    }
}

/// What a request for load asks for: nothing where it is blank, meshes where it
/// is a bare count, and otherwise what its fields say.
pub open spec fn requested(raw: Seq<char>) -> Result<Option<StressSpec>, SpecErrorView> {
    let text = trimmed(raw);
    if text.len() == 0 {
        Ok(None)
    } else if count_of(text) is Some {
        Ok(Some(StressSpec { meshes: count_of(text)->0, ..no_load() }))
    } else {
        match with_fields(fields_of(text), fields_of(text).len() as int) {
            Ok(spec) => Ok(Some(spec)),
            Err(error) => Err(error),
        }
    }
}

/// Find the first `mark` in a text.
fn find_mark(text: &str, mark: char) -> (end: usize)
    ensures
        end == before_mark(text@, mark),
        end <= text@.len(),
{
    let len: usize = text.unicode_len();
    let mut end: usize = 0;
    assert(text@.subrange(0, len as int) =~= text@);
    while end < len && text.get_char(end) != mark
        invariant
            end <= len,
            len == text@.len(),
            before_mark(text@, mark) == end + before_mark(
                text@.subrange(end as int, len as int),
                mark,
            ),
        decreases len - end,
    {
        proof {
            let rest = text@.subrange(end as int, len as int);
            assert(rest[0] == text@[end as int]);
            assert(rest.drop_first() =~= text@.subrange(end as int + 1, len as int));
        }
        end = end + 1;
    }
    proof {
        if end < len {
            assert(text@.subrange(end as int, len as int)[0] == mark);
        }
    }
    end
}

impl StressSpec {
    pub fn is_empty(&self) -> (empty: bool)
        ensures
            empty == (*self == no_load()),
    {
        self.meshes == 0 && self.colliders == 0 && self.scripts == 0 && self.occluded == 0
    }

    fn add_field(self, field: &str) -> (spec: Result<StressSpec, SpecError>)
        ensures
            match spec {
                Ok(spec) => with_field(self, field@) == Ok::<StressSpec, SpecErrorView>(spec),
                Err(error) => with_field(self, field@) == Err::<StressSpec, SpecErrorView>(error@),
            },
    {
        let len: usize = field.unicode_len();
        let end: usize = find_mark(field, '=');
        if end >= len {
            return Err(SpecError::NotAPair(field.to_owned()));
        }
        let key = trim(field.substring_char(0, end));
        let value = field.substring_char(end + 1, len);
        match parse_count(trim(value)) {
            None => Err(SpecError::NotACount(value.to_owned())),
            Some(count) => if same(key, "meshes") {
                Ok(StressSpec { meshes: count, ..self })
            } else if same(key, "colliders") {
                Ok(StressSpec { colliders: count, ..self })
            } else if same(key, "scripts") {
                Ok(StressSpec { scripts: count, ..self })
            } else if same(key, "occluded") {
                Ok(StressSpec { occluded: count, ..self })
            } else {
                Err(SpecError::UnknownKey(key.to_owned()))
            },
        }
    }

    /// Read a request for load: a bare number means meshes, otherwise
    /// comma-separated `key=value` pairs. One that cannot be read is an error and
    /// no load, never a silent zero.
    pub fn parse(raw: &str) -> (spec: Result<Option<StressSpec>, SpecError>)
        ensures
            match spec {
                Ok(spec) => requested(raw@) == Ok::<Option<StressSpec>, SpecErrorView>(spec),
                Err(error) => requested(raw@) == Err::<Option<StressSpec>, SpecErrorView>(error@),
            },
    {
        let text = trim(raw);
        let len: usize = text.unicode_len();
        if len == 0 {
            return Ok(None);
        }
        if let Some(meshes) = parse_count(text) {
            return Ok(Some(StressSpec { meshes, colliders: 0, scripts: 0, occluded: 0 }));
        }
        let ghost fields = fields_of(text@);
        let ghost mut done: int = 0;
        let mut spec = StressSpec::default();
        let mut start: usize = 0;
        assert(text@.subrange(0, len as int) =~= text@);
        assert(fields.subrange(0, fields.len() as int) =~= fields);
        loop
            invariant
                start <= len,
                len == text@.len(),
                text@ == trimmed(raw@),
                len > 0,
                count_of(text@) is None,
                fields == fields_of(text@),
                0 <= done <= fields.len(),
                fields.subrange(done, fields.len() as int) == fields_of(
                    text@.subrange(start as int, len as int),
                ),
                with_fields(fields, done) == Ok::<StressSpec, SpecErrorView>(spec),
            decreases len - start,
        {
            let rest = text.substring_char(start, len);
            let ghost left = text@.subrange(start as int, len as int);
            let end: usize = find_mark(rest, ',');
            let last = end >= len - start;
            let field = if last {
                rest
            } else {
                rest.substring_char(0, end)
            };
            proof {
                let tail = fields.subrange(done, fields.len() as int);
                assert(tail.len() >= 1);
                assert(done < fields.len());
                assert(tail[0] == field@);
                assert(tail[0] == fields[done]);
                assert(fields[done] == field@);
            }
            match spec.add_field(field) {
                Ok(next) => {
                    spec = next;
                },
                Err(error) => {
                    proof {
                        with_fields_stops(fields, done + 1, fields.len() as int);
                    }
                    return Err(error);
                },
            }
            if last {
                proof {
                    assert(fields_of(left).len() == 1);
                }
                return Ok(Some(spec));
            }
            proof {
                let tail = fields.subrange(done, fields.len() as int);
                let after = left.subrange(end as int + 1, left.len() as int);
                assert(after =~= text@.subrange(start + end + 1, len as int));
                assert(fields.subrange(done + 1, fields.len() as int) =~= tail.drop_first());
                assert(tail.drop_first() =~= fields_of(after));
                done = done + 1;
            }
            start = start + end + 1;
        }
    }

    /// The load a run adds, or `None` where none is asked for or what is asked
    /// for cannot be read.
    pub fn from_env(raw: Option<&str>) -> (spec: Option<StressSpec>)
        ensures
            spec == (match raw {
                Some(raw) => match requested(raw@) {
                    Ok(spec) => spec,
                    Err(_) => None,
                },
                None => None,
            }),
    {
        match raw {
            Some(raw) => match Self::parse(raw) {
                Ok(spec) => spec,
                Err(_) => None,
            },
            None => None,
        }
    }
}

/// A wrong field spoils everything after it.
proof fn with_fields_stops(fields: Seq<Seq<char>>, low: int, high: int)
    requires
        low <= high,
        with_fields(fields, low) is Err,
    ensures
        with_fields(fields, high) == with_fields(fields, low),
    decreases high - low,
{
    if low < high {
        with_fields_stops(fields, low, high - 1);
        assert(high > 0) by {
            if high <= 0 {
                assert(with_fields(fields, low) is Ok);
            }
        }
    }
}

/// The output of the generator in some state.
pub open spec fn mixed(state: u64) -> u64 {
    let a = (state ^ (state >> 30)).wrapping_mul(FIRST_FACTOR);
    let b = (a ^ (a >> 27)).wrapping_mul(SECOND_FACTOR);
    b ^ (b >> 31)
}

/// The generator's state after some number of draws.
pub open spec fn state_after(seed: u64, draws: nat) -> u64 {
    ((seed + draws * GAMMA) % 0x1_0000_0000_0000_0000) as u64
}

/// The bits of draw `index`, counted from zero: the high ones, the low ones being
/// the weaker.
pub open spec fn bits_of(seed: u64, index: nat) -> u32 {
    (mixed(state_after(seed, index + 1)) >> 40) as u32
}

/// A generator of random numbers that never changes: splitmix64.
#[derive(Debug)]
pub struct Rng {
    pub state: u64,
}

impl Rng {
    pub fn new(seed: u64) -> (rng: Self)
        ensures
            rng.state == seed,
    {
        Rng { state: seed }
    }

    pub fn next_u64(&mut self) -> (value: u64)
        ensures
            final(self).state == state_after(old(self).state, 1),
            value == mixed(final(self).state),
    {
        self.state = self.state.wrapping_add(GAMMA);
        let first: u64 = self.state;
        let second: u64 = (first ^ (first >> 30)).wrapping_mul(FIRST_FACTOR);
        let third: u64 = (second ^ (second >> 27)).wrapping_mul(SECOND_FACTOR);
        third ^ (third >> 31)
    }

    /// Twenty-four random bits: what a number in `[0, 1)` is made of.
    pub fn bits(&mut self) -> (bits: u32)
        ensures
            final(self).state == state_after(old(self).state, 1),
            bits == bits_of(old(self).state, 0),
            bits < 0x100_0000,
    {
        let value: u64 = self.next_u64();
        assert(value >> 40 < 0x100_0000) by (bit_vector);
        (value >> 40) as u32
    }
}

proof fn state_after_one_more(seed: u64, draws: nat)
    ensures
        state_after(state_after(seed, draws), 1) == state_after(seed, draws + 1),
{
    let whole = seed + draws * GAMMA;
    assert((draws + 1) * GAMMA == draws * GAMMA + GAMMA) by (nonlinear_arith);
    vstd::arithmetic::div_mod::lemma_add_mod_noop(
        whole as int,
        GAMMA as int,
        0x1_0000_0000_0000_0000,
    );
    vstd::arithmetic::div_mod::lemma_small_mod(GAMMA as nat, 0x1_0000_0000_0000_0000);
    assert(whole % 0x1_0000_0000_0000_0000 < 0x1_0000_0000_0000_0000);
}

proof fn state_after_none(seed: u64)
    ensures
        state_after(seed, 0) == seed,
{
    assert(0 * GAMMA == 0) by (nonlinear_arith);
    vstd::arithmetic::div_mod::lemma_small_mod(seed as nat, 0x1_0000_0000_0000_0000);
}

/// A panel of the occlusion rig's walls.
#[derive(Clone, Copy, Debug, PartialEq, Eq, Structural)]
pub struct Panel {
    pub layer: usize,
    pub row: usize,
    pub column: usize,
}

/// A prop of the occlusion rig: the layer whose wall it stands behind, and the
/// bits that place it there.
#[derive(Clone, Copy, Debug, PartialEq, Eq, Structural)]
pub struct Prop {
    pub layer: usize,
    pub depth: u32,
    pub scale: u32,
    pub across: u32,
    pub along: u32,
}

/// The occlusion rig: walls of panels across the view, and the props packed
/// behind them.
#[derive(Debug)]
pub struct OcclusionRig {
    pub panels: Vec<Panel>,
    pub props: Vec<Prop>,
}

/// How many of the props stand behind one layer's wall: an even share, and the
/// remainder behind the last.
pub open spec fn share_of(props: usize, layer: int) -> nat {
    (props as nat / LAYERS as nat) + (if layer == LAYERS - 1 {
        props as nat % LAYERS as nat
    } else {
        0
    })
}

/// How many draws the first `layers` layers took: one a panel and four a prop.
pub open spec fn draws_of_layers(props: usize, layers: int) -> nat
    decreases layers,
{
    if layers <= 0 {
        0
    } else {
        draws_of_layers(props, layers - 1) + PANELS as nat + 4 * share_of(
            props,
            layers - 1,
        )
    }
}

/// How many props stand behind the first `layers` layers.
pub open spec fn props_of_layers(props: usize, layers: int) -> nat
    decreases layers,
{
    if layers <= 0 {
        0
    } else {
        props_of_layers(props, layers - 1) + share_of(props, layers - 1)
    }
}

/// The panels of one layer's wall, the first `count` places of it, given the bits
/// drawn for each: row by row, without the gaps.
pub open spec fn panels_of_layer(seed: u64, first: nat, layer: usize, count: int) -> Seq<Panel>
    decreases count,
{
    if count <= 0 {
        Seq::empty()
    } else {
        let rest = panels_of_layer(seed, first, layer, count - 1);
        if bits_of(seed, (first + count - 1) as nat) < GAP_BELOW {
            rest
        } else {
            rest.push(
                Panel {
                    layer,
                    row: ((count - 1) / PANEL_COLS as int) as usize,
                    column: ((count - 1) % PANEL_COLS as int) as usize,
                },
            )
        }
    }
}

/// The panels of the first `layers` walls.
pub open spec fn panels_of(seed: u64, first: nat, props: usize, layers: int) -> Seq<Panel>
    decreases layers,
{
    if layers <= 0 {
        Seq::empty()
    } else {
        panels_of(seed, first, props, layers - 1) + panels_of_layer(
            seed,
            first + draws_of_layers(props, layers - 1),
            (layers - 1) as usize,
            PANELS as int,
        )
    }
}

/// Prop `index` of one layer, whose first prop is drawn from `first` on.
pub open spec fn prop_of(seed: u64, first: nat, layer: usize, index: nat) -> Prop {
    Prop {
        layer,
        depth: bits_of(seed, first + 4 * index),
        scale: bits_of(seed, first + 4 * index + 1),
        across: bits_of(seed, first + 4 * index + 2),
        along: bits_of(seed, first + 4 * index + 3),
    }
}

/// The props of the first `layers` layers.
pub open spec fn props_of(seed: u64, first: nat, props: usize, layers: int) -> Seq<Prop>
    decreases layers,
{
    if layers <= 0 {
        Seq::empty()
    } else {
        let start = first + draws_of_layers(props, layers - 1) + PANELS as nat;
        props_of(seed, first, props, layers - 1) + Seq::new(
            share_of(props, layers - 1),
            |i: int| prop_of(seed, start, (layers - 1) as usize, i as nat),
        )
    }
}

/// The generator is where `draws` draws from `seed` leave it.
pub open spec fn drawn(rng: Rng, seed: u64, draws: nat) -> bool {
    rng.state == state_after(seed, draws)
}

fn draw(rng: &mut Rng, Ghost(seed): Ghost<u64>, Ghost(draws): Ghost<nat>) -> (bits: u32)
    requires
        drawn(*old(rng), seed, draws),
    ensures
        drawn(*final(rng), seed, draws + 1),
        bits == bits_of(seed, draws),
{
    proof {
        state_after_one_more(seed, draws);
        state_after_none(old(rng).state);
    }
    rng.bits()
}

/// Lay out the occlusion rig: `props` small boxes packed behind walls that each
/// span the screen.
///
/// Every prop asked for is placed, spread evenly over the layers; the walls are a
/// bounded overhead rather than a share of the count.
pub fn occlusion_rig(props: usize, rng: &mut Rng) -> (rig: OcclusionRig)
    ensures
        rig.panels@ == panels_of(old(rng).state, 0, props, LAYERS as int),
        rig.props@ == props_of(old(rng).state, 0, props, LAYERS as int),
        final(rng).state == state_after(
            old(rng).state,
            draws_of_layers(props, LAYERS as int),
        ),
{
    let ghost seed = rng.state;
    proof {
        state_after_none(seed);
    }
    let mut panels: Vec<Panel> = Vec::new();
    let mut placed: Vec<Prop> = Vec::new();
    let mut layer: usize = 0;
    while layer < LAYERS
        invariant
            layer <= LAYERS,
            panels@ == panels_of(seed, 0, props, layer as int),
            placed@ == props_of(seed, 0, props, layer as int),
            drawn(*rng, seed, draws_of_layers(props, layer as int)),
        decreases LAYERS - layer,
    {
        let ghost first = draws_of_layers(props, layer as int);
        let ghost walls = panels@;
        let mut row: usize = 0;
        let ghost mut place: int = 0;
        assert(walls + panels_of_layer(seed, first, layer, 0) =~= walls);
        while row < PANEL_ROWS
            invariant
                row <= PANEL_ROWS,
                place == row * PANEL_COLS,
                panels@ == walls + panels_of_layer(seed, first, layer, place),
                drawn(*rng, seed, (first + place) as nat),
            decreases PANEL_ROWS - row,
        {
            let mut column: usize = 0;
            while column < PANEL_COLS
                invariant
                    row < PANEL_ROWS,
                    column <= PANEL_COLS,
                    place == row * PANEL_COLS + column,
                    panels@ == walls + panels_of_layer(seed, first, layer, place),
                    drawn(*rng, seed, (first + place) as nat),
                decreases PANEL_COLS - column,
            {
                let ghost so_far = panels@;
                let bits: u32 = draw(rng, Ghost(seed), Ghost((first + place) as nat));
                if bits >= GAP_BELOW {
                    panels.push(Panel { layer, row, column });
                }
                proof {
                    let before = panels_of_layer(seed, first, layer, place);
                    let after = panels_of_layer(seed, first, layer, place + 1);
                    assert(PANEL_COLS == 4);
                    assert(place / 4 == row && place % 4 == column);
                    if bits >= GAP_BELOW {
                        assert(walls + after =~= so_far.push(Panel { layer, row, column }));
                    } else {
                        assert(after =~= before);
                    }
                    place = place + 1;
                }
                column = column + 1;
            }
            row = row + 1;
        }
        // Evenly over the layers, with the remainder on the last.
        let rest: usize = if layer == LAYERS - 1 {
            props % LAYERS
        } else {
            0
        };
        assert(props / LAYERS + props % LAYERS <= props) by (nonlinear_arith)
            requires
                LAYERS == 6,
        ;
        let share: usize = props / LAYERS + rest;
        let ghost start = first + PANELS as nat;
        let ghost others = placed@;
        let mut index: usize = 0;
        assert(others + Seq::new(0, |i: int| prop_of(seed, start, layer, i as nat)) =~= others);
        while index < share
            invariant
                index <= share,
                placed@ == others + Seq::new(
                    index as nat,
                    |i: int| prop_of(seed, start, layer, i as nat),
                ),
                drawn(*rng, seed, (start + 4 * index) as nat),
            decreases share - index,
        {
            let ghost so_far = placed@;
            let ghost next = (start + 4 * index) as nat;
            let depth: u32 = draw(rng, Ghost(seed), Ghost(next));
            let scale: u32 = draw(rng, Ghost(seed), Ghost(next + 1));
            let across: u32 = draw(rng, Ghost(seed), Ghost(next + 2));
            let along: u32 = draw(rng, Ghost(seed), Ghost(next + 3));
            placed.push(Prop { layer, depth, scale, across, along });
            index = index + 1;
            assert(placed@ =~= others + Seq::new(
                index as nat,
                |i: int| prop_of(seed, start, layer, i as nat),
            ));
        }
        layer = layer + 1;
        proof {
            assert(panels@ =~= panels_of(seed, 0, props, layer as int));
            assert(placed@ =~= props_of(seed, 0, props, layer as int));
        }
    }
    OcclusionRig { panels, props: placed }
}

/// A cube of the load: the bits that place and size it.
#[derive(Clone, Copy, Debug, PartialEq, Eq, Structural)]
pub struct Cube {
    pub x: u32,
    pub y: u32,
    pub z: u32,
    pub scale: u32,
}

/// A collider of the load: the bits that place it, and what it is.
#[derive(Clone, Copy, Debug, PartialEq, Eq, Structural)]
pub struct StressCollider {
    pub x: u32,
    pub y: u32,
    pub z: u32,
    /// A box, or else a sphere.
    pub is_box: bool,
    /// A third are triggers, so that the resolver is exercised without every pair
    /// pushing the scene apart.
    pub is_trigger: bool,
}

/// A whole load, laid out.
#[derive(Debug)]
pub struct StressScene {
    pub cubes: Vec<Cube>,
    pub colliders: Vec<StressCollider>,
    pub rig: OcclusionRig,
}

pub open spec fn cube_of(seed: u64, index: nat) -> Cube {
    Cube {
        x: bits_of(seed, 4 * index),
        y: bits_of(seed, 4 * index + 1),
        z: bits_of(seed, 4 * index + 2),
        scale: bits_of(seed, 4 * index + 3),
    }
}

pub open spec fn collider_of(seed: u64, first: nat, index: nat) -> StressCollider {
    StressCollider {
        x: bits_of(seed, first + 3 * index),
        y: bits_of(seed, first + 3 * index + 1),
        z: bits_of(seed, first + 3 * index + 2),
        is_box: index % 2 == 0,
        is_trigger: index % 3 == 0,
    }
}

/// A scene is the load that a request asks for.
pub open spec fn lays_out(spec: StressSpec, scene: StressScene) -> bool {
    let first_collider = 4 * spec.meshes as nat;
    let rig_seed = state_after(SEED, (first_collider + 3 * spec.colliders as nat) as nat);
    &&& scene.cubes@ == Seq::new(spec.meshes as nat, |i: int| cube_of(SEED, i as nat))
    &&& scene.colliders@ == Seq::new(
        spec.colliders as nat,
        |i: int| collider_of(SEED, first_collider, i as nat),
    )
    &&& spec.occluded > 0 ==> {
        &&& scene.rig.panels@ == panels_of(rig_seed, 0, spec.occluded, LAYERS as int)
        &&& scene.rig.props@ == props_of(rig_seed, 0, spec.occluded, LAYERS as int)
    }
    &&& spec.occluded == 0 ==> {
        &&& scene.rig.panels@.len() == 0
        &&& scene.rig.props@.len() == 0
    }
}

/// Lay out a load: the cubes, the colliders and the occlusion rig, all from one
/// generator, so that a request for several kinds still lays out identically
/// every run. A kind of which none is asked for is skipped entirely, the rig with
/// its walls.
///
/// `None` where the cube or its material is missing: there is then nothing to
/// draw the load with.
pub fn spawn_stress_scene(spec: &StressSpec, has_cube: bool, has_material: bool) -> (scene: Option<
    StressScene,
>)
    ensures
        scene is Some <==> has_cube && has_material,
        scene is Some ==> lays_out(*spec, scene->0),
{
    if !has_cube || !has_material {
        return None;
    }
    let mut rng = Rng::new(SEED);
    proof {
        state_after_none(SEED);
    }
    let mut cubes: Vec<Cube> = Vec::new();
    let mut index: usize = 0;
    while index < spec.meshes
        invariant
            index <= spec.meshes,
            cubes@ == Seq::new(index as nat, |i: int| cube_of(SEED, i as nat)),
            drawn(rng, SEED, (4 * index) as nat),
        decreases spec.meshes - index,
    {
        let ghost next = (4 * index) as nat;
        let x: u32 = draw(&mut rng, Ghost(SEED), Ghost(next));
        let y: u32 = draw(&mut rng, Ghost(SEED), Ghost(next + 1));
        let z: u32 = draw(&mut rng, Ghost(SEED), Ghost(next + 2));
        let scale: u32 = draw(&mut rng, Ghost(SEED), Ghost(next + 3));
        cubes.push(Cube { x, y, z, scale });
        index = index + 1;
        assert(cubes@ =~= Seq::new(index as nat, |i: int| cube_of(SEED, i as nat)));
    }
    let ghost first = 4 * spec.meshes as nat;
    let mut colliders: Vec<StressCollider> = Vec::new();
    let mut index: usize = 0;
    while index < spec.colliders
        invariant
            index <= spec.colliders,
            colliders@ == Seq::new(index as nat, |i: int| collider_of(SEED, first, i as nat)),
            drawn(rng, SEED, (first + 3 * index) as nat),
        decreases spec.colliders - index,
    {
        let ghost next = (first + 3 * index) as nat;
        let x: u32 = draw(&mut rng, Ghost(SEED), Ghost(next));
        let y: u32 = draw(&mut rng, Ghost(SEED), Ghost(next + 1));
        let z: u32 = draw(&mut rng, Ghost(SEED), Ghost(next + 2));
        colliders.push(
            StressCollider { x, y, z, is_box: index % 2 == 0, is_trigger: index % 3 == 0 },
        );
        index = index + 1;
        assert(colliders@ =~= Seq::new(
            index as nat,
            |i: int| collider_of(SEED, first, i as nat),
        ));
    }
    // Walls with nothing behind them are a load that nobody asked for.
    let rig = if spec.occluded > 0 {
        occlusion_rig(spec.occluded, &mut rng)
    } else {
        OcclusionRig { panels: Vec::new(), props: Vec::new() }
    };
    Some(StressScene { cubes, colliders, rig })
}

/// **Every prop asked for is placed.**
pub proof fn rig_places_every_prop(seed: u64, props: usize)
    ensures
        props_of(seed, 0, props, LAYERS as int).len() == props,
{
    props_counted(seed, props, LAYERS as int);
    assert(LAYERS == 6);
    reveal_with_fuel(props_of_layers, 7);
    assert(props == 6 * (props as nat / 6) + props as nat % 6);
}

proof fn props_counted(seed: u64, props: usize, layers: int)
    requires
        0 <= layers,
    ensures
        props_of(seed, 0, props, layers).len() == props_of_layers(props, layers),
    decreases layers,
{
    if layers > 0 {
        props_counted(seed, props, layers - 1);
    }
}

/// **The walls are a bounded overhead.** However many props there are, the rig has
/// at most a panel for every place in its walls.
pub proof fn rig_panels_are_bounded(seed: u64, props: usize)
    ensures
        panels_of(seed, 0, props, LAYERS as int).len() <= LAYERS * PANELS,
{
    panels_counted(seed, props, LAYERS as int);
}

proof fn panels_counted(seed: u64, props: usize, layers: int)
    requires
        0 <= layers,
    ensures
        panels_of(seed, 0, props, layers).len() <= layers * PANELS,
    decreases layers,
{
    if layers > 0 {
        panels_counted(seed, props, layers - 1);
        layer_panels_counted(
            seed,
            draws_of_layers(props, layers - 1),
            (layers - 1) as usize,
            PANELS as int,
        );
    }
}

proof fn layer_panels_counted(seed: u64, first: nat, layer: usize, count: int)
    requires
        0 <= count,
    ensures
        panels_of_layer(seed, first, layer, count).len() <= count,
    decreases count,
{
    if count > 0 {
        layer_panels_counted(seed, first, layer, count - 1);
    }
}

/// Multiplying by an odd factor can be undone by multiplying by its inverse.
proof fn product_undone(value: u64, factor: u64, inverse: u64)
    requires
        factor as int * inverse as int % 0x1_0000_0000_0000_0000 == 1,
    ensures
        value.wrapping_mul(factor) as int * inverse as int % 0x1_0000_0000_0000_0000 == value,
{
    let all: int = 0x1_0000_0000_0000_0000;
    let product = value as int * factor as int;
    assert(value.wrapping_mul(factor) as int == product % all);
    vstd::arithmetic::div_mod::lemma_mul_mod_noop_left(product, inverse as int, all);
    assert(product * inverse as int == value as int * (factor as int * inverse as int))
        by (nonlinear_arith)
        requires
            product == value as int * factor as int,
    ;
    vstd::arithmetic::div_mod::lemma_mul_mod_noop_right(
        value as int,
        factor as int * inverse as int,
        all,
    );
    assert(value as int * 1 == value);
    vstd::arithmetic::div_mod::lemma_small_mod(value as nat, all as nat);
}

proof fn products_differ(a: u64, b: u64, factor: u64, inverse: u64)
    requires
        factor as int * inverse as int % 0x1_0000_0000_0000_0000 == 1,
        a.wrapping_mul(factor) == b.wrapping_mul(factor),
    ensures
        a == b,
{
    product_undone(a, factor, inverse);
    product_undone(b, factor, inverse);
}

/// **The generator loses nothing.** Different states give different numbers.
pub proof fn mixing_is_injective(a: u64, b: u64)
    requires
        mixed(a) == mixed(b),
    ensures
        a == b,
{
    let a1 = (a ^ (a >> 30)).wrapping_mul(FIRST_FACTOR);
    let a2 = (a1 ^ (a1 >> 27)).wrapping_mul(SECOND_FACTOR);
    let b1 = (b ^ (b >> 30)).wrapping_mul(FIRST_FACTOR);
    let b2 = (b1 ^ (b1 >> 27)).wrapping_mul(SECOND_FACTOR);
    assert(a2 == b2) by (bit_vector)
        requires
            a2 ^ (a2 >> 31) == b2 ^ (b2 >> 31),
    ;
    assert(FIRST_FACTOR as int * 0x96de_1b17_3f11_9089 % 0x1_0000_0000_0000_0000 == 1);
    assert(SECOND_FACTOR as int * 0x3196_42b2_d24d_8ec3 % 0x1_0000_0000_0000_0000 == 1);
    products_differ(a1 ^ (a1 >> 27), b1 ^ (b1 >> 27), SECOND_FACTOR, 0x3196_42b2_d24d_8ec3);
    assert(a1 == b1) by (bit_vector)
        requires
            a1 ^ (a1 >> 27) == b1 ^ (b1 >> 27),
    ;
    products_differ(a ^ (a >> 30), b ^ (b >> 30), FIRST_FACTOR, 0x96de_1b17_3f11_9089);
    assert(a == b) by (bit_vector)
        requires
            a ^ (a >> 30) == b ^ (b >> 30),
    ;
}

/// **The generator never repeats itself.** Two draws in a row give different
/// numbers.
pub proof fn draws_in_a_row_differ(state: u64)
    ensures
        mixed(state_after(state, 1)) != mixed(state_after(state, 2)),
{
    if mixed(state_after(state, 1)) == mixed(state_after(state, 2)) {
        mixing_is_injective(state_after(state, 1), state_after(state, 2));
        state_after_one_more(state, 1);
        let first = state_after(state, 1);
        assert(1 * GAMMA == GAMMA) by (nonlinear_arith);
        assert((first + GAMMA) % 0x1_0000_0000_0000_0000 != first);
    }
}

/// What a cube was given, in the order it was drawn.
pub open spec fn cube_draws(cube: Cube) -> Seq<u32> {
    seq![cube.x, cube.y, cube.z, cube.scale]
}

/// What a collider was given, in the order it was drawn.
pub open spec fn collider_draws(collider: StressCollider) -> Seq<u32> {
    seq![collider.x, collider.y, collider.z]
}

/// What a prop was given, in the order it was drawn.
pub open spec fn prop_draws(prop: Prop) -> Seq<u32> {
    seq![prop.depth, prop.scale, prop.across, prop.along]
}

/// **The generator is one row of numbers.** A generator that has made some draws goes
/// on with the ones that follow them, each from a state of its own, and a number is
/// the top twenty-four bits of what it gives.
pub proof fn draws_are_one_row(seed: u64, made: nat, more: nat)
    ensures
        bits_of(state_after(seed, made), more) == bits_of(seed, made + more),
        state_after(state_after(seed, made), more) == state_after(seed, made + more),
        state_after(seed, 0) == seed,
        bits_of(seed, made) < 0x100_0000,
        bits_of(seed, made) * 0x100_0000_0000 <= mixed(state_after(seed, made + 1)),
        mixed(state_after(seed, made + 1)) < (bits_of(seed, made) + 1) * 0x100_0000_0000,
    decreases more,
{
    let all: int = 0x1_0000_0000_0000_0000;
    let value = mixed(state_after(seed, made + 1));
    assert(value >> 40 < 0x100_0000) by (bit_vector);
    assert((value >> 40) * 0x100_0000_0000 <= value) by (bit_vector);
    assert(value < ((value >> 40) + 1) * 0x100_0000_0000) by (bit_vector);
    state_after_none(seed);
    state_after_none(state_after(seed, made));
    states_add_up(seed, made, more);
    states_add_up(seed, made, more + 1);
    assert(made + more + 1 == made + (more + 1));
}

proof fn states_add_up(seed: u64, made: nat, more: nat)
    ensures
        state_after(state_after(seed, made), more) == state_after(seed, made + more),
    decreases more,
{
    if more == 0 {
        state_after_none(state_after(seed, made));
    } else {
        states_add_up(seed, made, (more - 1) as nat);
        state_after_one_more(state_after(seed, made), (more - 1) as nat);
        state_after_one_more(seed, (made + more - 1) as nat);
    }
}

/// **Every cube has four draws to itself.** Read off in order, four numbers a cube,
/// the cubes are the generator's numbers in order: none is skipped, and none is shared
/// by two cubes.
pub proof fn cubes_are_the_draws_in_order(seed: u64, draw: nat)
    ensures
        cube_draws(cube_of(seed, draw / 4))[(draw % 4) as int] == bits_of(seed, draw),
        cube_draws(cube_of(seed, draw / 4)).len() == 4,
{
    assert(draw == 4 * (draw / 4) + draw % 4);
    let cube = cube_draws(cube_of(seed, draw / 4));
    if draw % 4 == 0 {
        assert(cube[0] == bits_of(seed, draw));
    } else if draw % 4 == 1 {
        assert(cube[1] == bits_of(seed, draw));
    } else if draw % 4 == 2 {
        assert(cube[2] == bits_of(seed, draw));
    } else {
        assert(cube[3] == bits_of(seed, draw));
    }
}

/// **Every collider has three draws to itself**, behind those of the cubes.
pub proof fn colliders_are_the_draws_in_order(seed: u64, first: nat, draw: nat)
    ensures
        collider_draws(collider_of(seed, first, draw / 3))[(draw % 3) as int] == bits_of(
            seed,
            first + draw,
        ),
        collider_draws(collider_of(seed, first, draw / 3)).len() == 3,
{
    assert(draw == 3 * (draw / 3) + draw % 3);
    let collider = collider_draws(collider_of(seed, first, draw / 3));
    if draw % 3 == 0 {
        assert(collider[0] == bits_of(seed, first + draw));
    } else if draw % 3 == 1 {
        assert(collider[1] == bits_of(seed, first + draw));
    } else {
        assert(collider[2] == bits_of(seed, first + draw));
    }
}

/// **A load lays its kinds out one behind the other.** In the scene that a request
/// asks for, there is as much of everything as it says; cube `c` has the draws from
/// `4c` on, collider `k` those from `4 * meshes + 3k` on, and the rig those behind
/// them; nobody else has them. Boxes and spheres take turns, and every third collider
/// is a trigger.
pub proof fn loads_spend_their_draws_once(
    spec: StressSpec,
    scene: StressScene,
    cube: int,
    collider: int,
    prop: int,
    field: int,
)
    requires
        lays_out(spec, scene),
    ensures
        scene.cubes@.len() == spec.meshes,
        scene.colliders@.len() == spec.colliders,
        scene.rig.props@.len() == spec.occluded,
        0 <= cube < spec.meshes && 0 <= field < 4 ==> cube_draws(scene.cubes@[cube])[field]
            == bits_of(SEED, (4 * cube + field) as nat),
        0 <= collider < spec.colliders && 0 <= field < 3 ==> collider_draws(
            scene.colliders@[collider],
        )[field] == bits_of(SEED, (4 * spec.meshes + 3 * collider + field) as nat),
        0 <= collider < spec.colliders ==> {
            &&& scene.colliders@[collider].is_box <==> collider % 2 == 0
            &&& scene.colliders@[collider].is_trigger <==> collider % 3 == 0
        },
        0 <= prop < spec.occluded / 6 && 0 <= field < 4 ==> {
            &&& scene.rig.props@[prop].layer == 0
            &&& prop_draws(scene.rig.props@[prop])[field] == bits_of(
                SEED,
                (4 * spec.meshes + 3 * spec.colliders + 12 + 4 * prop + field) as nat,
            )
        },
        spec.occluded == 0 ==> scene.rig.panels@.len() == 0,
{
    let first = 4 * spec.meshes as nat;
    let before = (first + 3 * spec.colliders) as nat;
    let seed = state_after(SEED, before);
    if 0 <= cube < spec.meshes && 0 <= field < 4 {
        let draw = (4 * cube + field) as nat;
        assert(draw / 4 == cube && draw % 4 == field);
        cubes_are_the_draws_in_order(SEED, draw);
    }
    if 0 <= collider < spec.colliders && 0 <= field < 3 {
        let draw = (3 * collider + field) as nat;
        assert(draw / 3 == collider && draw % 3 == field);
        colliders_are_the_draws_in_order(SEED, first, draw);
    }
    if spec.occluded > 0 {
        rig_places_every_prop(seed, spec.occluded);
        if 0 <= prop < spec.occluded / 6 && 0 <= field < 4 {
            props_are_the_draws_in_order(seed, spec.occluded, 0, prop, field);
            draws_are_one_row(SEED, before, (12 + 4 * prop + field) as nat);
            assert(0 * (12 + 4 * (spec.occluded as nat / 6)) == 0);
            assert(before + (12 + 4 * prop + field) == 4 * spec.meshes + 3 * spec.colliders + 12
                + 4 * prop + field);
        }
    }
}

/// **A wall is left open a quarter of the time.** The place in a wall has its panel,
/// by its row and its column, exactly where the number drawn for it is not in the
/// lowest quarter; and there is nothing else in the wall.
pub proof fn walls_have_their_gaps(seed: u64, first: nat, layer: usize, place: int, panel: Panel)
    requires
        0 <= place < 12,
    ensures
        ({
            let wall = panels_of_layer(seed, first, layer, PANELS as int);
            let here = Panel { layer, row: (place / 4) as usize, column: (place % 4) as usize };
            &&& wall.contains(here) <==> bits_of(seed, (first + place) as nat) * 4 >= 0x100_0000
            &&& wall.contains(panel) ==> panel.layer == layer && panel.row < 3 && panel.column < 4
        }),
{
    wall_holds(seed, first, layer, PANELS as int, place);
    wall_is_bounded(seed, first, layer, PANELS as int, panel);
}

proof fn wall_holds(seed: u64, first: nat, layer: usize, count: int, place: int)
    requires
        0 <= place,
        0 <= count <= 12,
        place < 12,
    ensures
        ({
            let here = Panel { layer, row: (place / 4) as usize, column: (place % 4) as usize };
            panels_of_layer(seed, first, layer, count).contains(here) <==> place < count && bits_of(
                seed,
                (first + place) as nat,
            ) >= GAP_BELOW
        }),
    decreases count,
{
    let here = Panel { layer, row: (place / 4) as usize, column: (place % 4) as usize };
    let wall = panels_of_layer(seed, first, layer, count);
    if count > 0 {
        wall_holds(seed, first, layer, count - 1, place);
        let rest = panels_of_layer(seed, first, layer, count - 1);
        let last = Panel {
            layer,
            row: ((count - 1) / 4) as usize,
            column: ((count - 1) % 4) as usize,
        };
        assert(last == here <==> place == count - 1);
        if bits_of(seed, (first + count - 1) as nat) >= GAP_BELOW {
            assert(wall == rest.push(last));
            assert(wall[rest.len() as int] == last);
            if rest.contains(here) {
                let k = choose|k: int| 0 <= k < rest.len() && rest[k] == here;
                assert(wall[k] == here);
            }
            if wall.contains(here) && here != last {
                let k = choose|k: int| 0 <= k < wall.len() && wall[k] == here;
                assert(rest[k] == here);
            }
        }
    }
}

proof fn wall_is_bounded(seed: u64, first: nat, layer: usize, count: int, panel: Panel)
    requires
        0 <= count <= 12,
    ensures
        panels_of_layer(seed, first, layer, count).contains(panel) ==> panel.layer == layer
            && panel.row < 3 && panel.column < 4,
    decreases count,
{
    let wall = panels_of_layer(seed, first, layer, count);
    if count > 0 {
        wall_is_bounded(seed, first, layer, count - 1, panel);
        let rest = panels_of_layer(seed, first, layer, count - 1);
        if wall.contains(panel) {
            let k = choose|k: int| 0 <= k < wall.len() && wall[k] == panel;
            if k < rest.len() {
                assert(rest[k] == panel);
            }
        }
    }
}

/// What the layers before one took: twelve draws a wall, and four for each prop of an
/// even share.
proof fn layers_take_their_draws(props: usize, layer: int)
    requires
        0 <= layer < 6,
    ensures
        draws_of_layers(props, layer) == layer * (12 + 4 * (props as nat / 6)),
        props_of_layers(props, layer) == layer * (props as nat / 6),
    decreases layer,
{
    if layer > 0 {
        layers_take_their_draws(props, layer - 1);
        let each = 12 + 4 * (props as nat / 6);
        assert(layer * each == (layer - 1) * each + each) by (nonlinear_arith);
        assert(layer * (props as nat / 6) == (layer - 1) * (props as nat / 6) + props as nat / 6)
            by (nonlinear_arith);
    }
}

/// **Every prop has four draws to itself, behind its own wall's.** The props of the rig
/// stand in layers of an even share each, what is left over behind the last wall; and
/// each prop's numbers are the generator's that follow those of its wall and of the
/// props before it.
pub proof fn props_are_the_draws_in_order(
    seed: u64,
    props: usize,
    layer: int,
    index: int,
    field: int,
)
    requires
        0 <= layer < 6,
        0 <= index < props as nat / 6 + (if layer == 5 {
            props as nat % 6
        } else {
            0
        }),
        0 <= field < 4,
    ensures
        ({
            let each = props as nat / 6;
            let at = layer * each + index;
            let all = props_of(seed, 0, props, LAYERS as int);
            &&& 0 <= at < all.len()
            &&& all[at].layer == layer
            &&& prop_draws(all[at])[field] == bits_of(
                seed,
                (layer * (12 + 4 * each) + 12 + 4 * index + field) as nat,
            )
        }),
{
    let each = props as nat / 6;
    layers_take_their_draws(props, layer);
    props_counted(seed, props, layer);
    props_stay(seed, props, layer + 1, LAYERS as int, layer * each + index);
    let upto = props_of(seed, 0, props, layer + 1);
    let start = draws_of_layers(props, layer) + PANELS as nat;
    props_counted(seed, props, layer + 1);
    assert(upto[layer * each + index] == prop_of(seed, start, layer as usize, index as nat));
    let prop = prop_of(seed, start, layer as usize, index as nat);
    if field == 0 {
        assert(prop_draws(prop)[0] == bits_of(seed, (start + 4 * index + field) as nat));
    } else if field == 1 {
        assert(prop_draws(prop)[1] == bits_of(seed, (start + 4 * index + field) as nat));
    } else if field == 2 {
        assert(prop_draws(prop)[2] == bits_of(seed, (start + 4 * index + field) as nat));
    } else {
        assert(prop_draws(prop)[3] == bits_of(seed, (start + 4 * index + field) as nat));
    }
}

/// Later layers are laid out behind earlier ones.
proof fn props_stay(seed: u64, props: usize, layers: int, more: int, at: int)
    requires
        0 <= layers <= more,
        0 <= at < props_of(seed, 0, props, layers).len(),
    ensures
        at < props_of(seed, 0, props, more).len(),
        props_of(seed, 0, props, more)[at] == props_of(seed, 0, props, layers)[at],
    decreases more - layers,
{
    if layers < more {
        props_stay(seed, props, layers, more - 1, at);
    }
}

/// **Every wall stands in the rig.** What a wall holds is in the rig, each wall drawn
/// where the layers before it left the generator, and the rig holds nothing else.
pub proof fn rigs_are_made_of_their_walls(seed: u64, props: usize, layer: int, panel: Panel)
    requires
        0 <= layer < 6,
    ensures
        ({
            let first = (layer * (12 + 4 * (props as nat / 6))) as nat;
            panel.layer == layer ==> (panels_of(seed, 0, props, LAYERS as int).contains(panel)
                <==> panels_of_layer(seed, first, layer as usize, 12).contains(panel))
        }),
        panels_of(seed, 0, props, LAYERS as int).contains(panel) ==> panel.layer < 6,
{
    layers_take_their_draws(props, layer);
    walls_add_up(seed, props, LAYERS as int, layer, panel);
    if panels_of(seed, 0, props, LAYERS as int).contains(panel) && panel.layer >= 6 {
        walls_add_up(seed, props, LAYERS as int, panel.layer as int, panel);
    }
}

proof fn walls_add_up(seed: u64, props: usize, layers: int, layer: int, panel: Panel)
    requires
        0 <= layers <= 6,
        panel.layer == layer ==> 0 <= layer,
    ensures
        panel.layer == layer ==> (panels_of(seed, 0, props, layers).contains(panel) <==> layer
            < layers && panels_of_layer(
            seed,
            draws_of_layers(props, layer),
            layer as usize,
            12,
        ).contains(panel)),
    decreases layers,
{
    if layers > 0 && panel.layer == layer {
        walls_add_up(seed, props, layers - 1, layer, panel);
        let rest = panels_of(seed, 0, props, layers - 1);
        let wall = panels_of_layer(
            seed,
            draws_of_layers(props, layers - 1),
            (layers - 1) as usize,
            12,
        );
        let all = panels_of(seed, 0, props, layers);
        assert(all == rest + wall);
        wall_is_bounded(
            seed,
            draws_of_layers(props, layers - 1),
            (layers - 1) as usize,
            12,
            panel,
        );
        if all.contains(panel) {
            let k = choose|k: int| 0 <= k < all.len() && all[k] == panel;
            if k < rest.len() {
                assert(rest[k] == panel);
            } else {
                assert(wall[k - rest.len()] == panel);
            }
        }
        if rest.contains(panel) {
            let k = choose|k: int| 0 <= k < rest.len() && rest[k] == panel;
            assert(all[k] == panel);
        }
        if wall.contains(panel) {
            let k = choose|k: int| 0 <= k < wall.len() && wall[k] == panel;
            assert(all[rest.len() + k] == panel);
        }
    }
}

/// **A pair sets the kind that it names and no other.** A field is read as the text
/// before its first equals sign and the text behind it, each without the space around
/// it; one that names another kind, or no count, is reported and sets nothing.
pub proof fn pairs_set_what_they_name(spec: StressSpec, key: Seq<char>, value: Seq<char>)
    requires
        !key.contains('='),
    ensures
        ({
            let read = with_field(spec, key + seq!['='] + value);
            let name = trimmed(key);
            match count_of(trimmed(value)) {
                Some(count) => {
                    &&& name == "meshes"@ ==> read == Ok::<StressSpec, SpecErrorView>(
                        StressSpec { meshes: count, ..spec },
                    )
                    &&& name == "colliders"@ ==> read == Ok::<StressSpec, SpecErrorView>(
                        StressSpec { colliders: count, ..spec },
                    )
                    &&& name == "scripts"@ ==> read == Ok::<StressSpec, SpecErrorView>(
                        StressSpec { scripts: count, ..spec },
                    )
                    &&& name == "occluded"@ ==> read == Ok::<StressSpec, SpecErrorView>(
                        StressSpec { occluded: count, ..spec },
                    )
                    &&& name != "meshes"@ && name != "colliders"@ && name != "scripts"@ && name
                        != "occluded"@ ==> read == Err::<StressSpec, SpecErrorView>(
                        SpecErrorView::UnknownKey(name),
                    )
                },
                None => read == Err::<StressSpec, SpecErrorView>(SpecErrorView::NotACount(value)),
            }
        }),
        with_field(spec, key) == Err::<StressSpec, SpecErrorView>(SpecErrorView::NotAPair(key)),
{
    reveal_strlit("meshes");
    reveal_strlit("colliders");
    reveal_strlit("scripts");
    reveal_strlit("occluded");
    assert("colliders"@.len() == 9 && "occluded"@.len() == 8 && "scripts"@.len() == 7);
    assert("meshes"@.len() == 6);
    let field = key + seq!['='] + value;
    mark_is_behind(key, '=', seq!['='] + value);
    assert(key + (seq!['='] + value) =~= field);
    assert(field.subrange(0, key.len() as int) =~= key);
    assert(field.subrange(key.len() as int + 1, field.len() as int) =~= value);
    mark_is_behind(key, '=', Seq::empty());
    assert(key + Seq::<char>::empty() =~= key);
}

/// The first mark of a text is behind what has none.
proof fn mark_is_behind(text: Seq<char>, mark: char, rest: Seq<char>)
    requires
        !text.contains(mark),
        rest.len() == 0 || rest[0] == mark,
    ensures
        before_mark(text + rest, mark) == text.len(),
    decreases text.len(),
{
    let all = text + rest;
    if text.len() > 0 {
        assert(text[0] != mark) by {
            assert(text.contains(text[0]));
        }
        assert forall|i: int| 0 <= i < text.drop_first().len() implies #[trigger] text.drop_first()[i]
            != mark by {
            assert(text.contains(text[i + 1]));
        }
        mark_is_behind(text.drop_first(), mark, rest);
        assert(all.drop_first() =~= text.drop_first() + rest);
    }
}

/// **A request is its fields with commas between them**, each without any, in order.
pub proof fn requests_are_their_fields(text: Seq<char>, i: int)
    ensures
        fields_of(text).len() >= 1,
        crate::text::joined(fields_of(text), seq![',']) == text,
        0 <= i < fields_of(text).len() ==> !fields_of(text)[i].contains(','),
    decreases text.len(),
{
    let end = before_mark(text, ',');
    before_mark_bounds(text, ',');
    before_mark_is_first(text, ',');
    if end >= text.len() {
        assert(fields_of(text) =~= seq![text]);
        assert(text.subrange(0, end) =~= text);
    } else {
        let head = text.subrange(0, end);
        let tail = text.subrange(end + 1, text.len() as int);
        requests_are_their_fields(tail, i - 1);
        let rest = fields_of(tail);
        assert(fields_of(text) == seq![head] + rest);
        joined_in_front(head, rest, seq![',']);
        assert(head + seq![','] + tail =~= text);
        if i == 0 {
            assert(fields_of(text)[0] == head);
        } else if 0 < i < fields_of(text).len() {
            assert(fields_of(text)[i] == rest[i - 1]);
        }
    }
}

proof fn before_mark_is_first(text: Seq<char>, mark: char)
    ensures
        0 <= before_mark(text, mark) <= text.len(),
        before_mark(text, mark) < text.len() ==> text[before_mark(text, mark)] == mark,
        !text.subrange(0, before_mark(text, mark)).contains(mark),
    decreases text.len(),
{
    let end = before_mark(text, mark);
    if text.len() > 0 && text[0] != mark {
        let rest = text.drop_first();
        before_mark_is_first(rest, mark);
        assert forall|i: int| 0 <= i < end implies #[trigger] text.subrange(0, end)[i] != mark by {
            if i > 0 {
                assert(rest.subrange(0, end - 1)[i - 1] == text[i]);
                assert(rest.subrange(0, end - 1).contains(text[i]));
            }
        }
    }
}

proof fn joined_in_front(head: Seq<char>, rest: Seq<Seq<char>>, separator: Seq<char>)
    requires
        rest.len() >= 1,
    ensures
        crate::text::joined(seq![head] + rest, separator) == head + separator
            + crate::text::joined(rest, separator),
    decreases rest.len(),
{
    let all = seq![head] + rest;
    assert(all.drop_last() =~= seq![head] + rest.drop_last());
    if rest.len() == 1 {
        assert(all.drop_last() =~= seq![head]);
        assert(crate::text::joined(all.drop_last(), separator) == head);
        assert(all.last() == rest[0]);
        assert(crate::text::joined(all, separator) == head + separator + rest[0]);
    } else {
        assert(all.last() == rest.last());
        joined_in_front(head, rest.drop_last(), separator);
        assert(crate::text::joined(all, separator) =~= head + separator + crate::text::joined(
            rest,
            separator,
        ));
    }
}

/// **A request is read from left to right.** One field more is read into what the
/// fields before it asked for, and what is wrong first is what is reported.
pub proof fn fields_are_read_in_turn(fields: Seq<Seq<char>>, count: int, raw: Seq<char>)
    ensures
        with_fields(fields, 0) == Ok::<StressSpec, SpecErrorView>(
            StressSpec { meshes: 0, colliders: 0, scripts: 0, occluded: 0 },
        ),
        0 < count ==> match with_fields(fields, count - 1) {
            Ok(spec) => with_fields(fields, count) == with_field(spec, fields[count - 1]),
            Err(error) => with_fields(fields, count) == Err::<StressSpec, SpecErrorView>(error),
        },
        trimmed(raw).len() == 0 ==> requested(raw) == Ok::<Option<StressSpec>, SpecErrorView>(None),
        trimmed(raw).len() > 0 ==> match count_of(trimmed(raw)) {
            Some(count) => requested(raw) == Ok::<Option<StressSpec>, SpecErrorView>(
                Some(StressSpec { meshes: count, colliders: 0, scripts: 0, occluded: 0 }),
            ),
            None => {
                let all = fields_of(trimmed(raw));
                match with_fields(all, all.len() as int) {
                    Ok(spec) => requested(raw) == Ok::<Option<StressSpec>, SpecErrorView>(
                        Some(spec),
                    ),
                    Err(error) => requested(raw) == Err::<Option<StressSpec>, SpecErrorView>(error),
                }
            },
        },
{
}

} // verus!
