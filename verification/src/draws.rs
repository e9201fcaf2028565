//! Walking a draw list: which runs are drawn, through which pipeline, and which
//! tiles of the shadow atlas they land in.

use vstd::prelude::*;

verus! {

/// A stretch of a draw list that one call draws: objects that share a mesh and a
/// material.
#[derive(Clone, Copy, Debug, PartialEq, Eq, Structural)]
pub struct Run {
    pub start: usize,
    pub len: usize,
    pub mesh: u32,
    pub material: u32,
}

/// One instanced draw.
#[derive(Clone, Copy, Debug, PartialEq, Eq, Structural)]
pub struct Draw {
    /// The pipeline to bind first, where another one is bound: `true` for the
    /// one that tests alpha.
    pub bind: Option<bool>,
    pub masked: bool,
    pub mesh: u32,
    pub material: u32,
    pub object_base: u32,
    pub instances: u32,
}

/// Whether a run names a mesh that was loaded. One that does not is skipped.
pub open spec fn drawable(run: Run, meshes: usize) -> bool {
    run.mesh < meshes
}

/// Whether a material's alpha is its shape. A material that was never loaded is
/// solid.
pub open spec fn wants_masked(material: u32, masked: Seq<bool>) -> bool {
    material < masked.len() && masked[material as int]
}

/// The pipeline bound once `draws` have been recorded.
pub open spec fn bound_after(draws: Seq<Draw>) -> Option<bool> {
    if draws.len() == 0 {
        None
    } else {
        Some(draws.last().masked)
    }
}

/// The draw of one run, after `before`.
pub open spec fn draw_of(run: Run, masked: Seq<bool>, base: u32, before: Seq<Draw>) -> Draw {
    let wants = wants_masked(run.material, masked);
    Draw {
        bind: if bound_after(before) == Some(wants) {
            None
        } else {
            Some(wants)
        },
        masked: wants,
        mesh: run.mesh,
        material: run.material,
        object_base: (base + (run.start as u32)) as u32,
        instances: run.len as u32,
    }
}

/// The draws of the first `count` runs, in the list's order.
pub open spec fn draws_of(
    runs: Seq<Run>,
    meshes: usize,
    masked: Seq<bool>,
    base: u32,
    count: int,
) -> Seq<Draw>
    decreases count,
{
    if count <= 0 {
        Seq::empty()
    } else {
        let before = draws_of(runs, meshes, masked, base, count - 1);
        if drawable(runs[count - 1], meshes) {
            before.push(draw_of(runs[count - 1], masked, base, before))
        } else {
            before
        }
    }
}

/// Draw a list's runs, switching pipelines only where a run's material wants
/// another one than the last drawn.
pub fn draw_runs(runs: &[Run], meshes: usize, masked: &[bool], base: u32) -> (draws: Vec<Draw>)
    requires
        forall|i: int|
            0 <= i < runs@.len() && drawable(#[trigger] runs@[i], meshes) ==> base + (
            runs@[i].start as u32) <= u32::MAX,
    ensures
        draws@ == draws_of(runs@, meshes, masked@, base, runs@.len() as int),
{
    let mut draws: Vec<Draw> = Vec::new();
    let mut bound: Option<bool> = None;
    let mut i: usize = 0;
    while i < runs.len()
        invariant
            i <= runs@.len(),
            forall|j: int|
                0 <= j < runs@.len() && drawable(#[trigger] runs@[j], meshes) ==> base + (
                runs@[j].start as u32) <= u32::MAX,
            draws@ == draws_of(runs@, meshes, masked@, base, i as int),
            bound == bound_after(draws@),
        decreases runs@.len() - i,
    {
        let run = runs[i];
        if (run.mesh as usize) < meshes {
            assert(drawable(runs@[i as int], meshes));
            let wants = (run.material as usize) < masked.len() && masked[run.material as usize];
            let bind = match bound {
                Some(current) => if current == wants {
                    None
                } else {
                    Some(wants)
                },
                None => Some(wants),
            };
            draws.push(
                Draw {
                    bind,
                    masked: wants,
                    mesh: run.mesh,
                    material: run.material,
                    object_base: base + #[verifier::truncate] (run.start as u32),
                    instances: #[verifier::truncate] (run.len as u32),
                },
            );
            bound = Some(wants);
        }
        i = i + 1;
    }
    draws
}

/// One instanced draw of a queue that has one pipeline.
#[derive(Clone, Copy, Debug, PartialEq, Eq, Structural)]
pub struct BlendedDraw {
    pub mesh: u32,
    pub material: u32,
    pub object_base: u32,
    pub instances: u32,
}

/// The draws of the first `count` runs of a blended or refractive queue.
pub open spec fn blended_of(runs: Seq<Run>, meshes: usize, base: u32, count: int) -> Seq<
    BlendedDraw,
>
    decreases count,
{
    if count <= 0 {
        Seq::empty()
    } else {
        let before = blended_of(runs, meshes, base, count - 1);
        let run = runs[count - 1];
        if drawable(run, meshes) {
            before.push(
                BlendedDraw {
                    mesh: run.mesh,
                    material: run.material,
                    object_base: (base + (run.start as u32)) as u32,
                    instances: run.len as u32,
                },
            )
        } else {
            before
        }
    }
}

/// Draw a blended or a refractive queue, in its own order: the first adds up in
/// any, and the second was sorted back to front.
pub fn blended_draws(runs: &[Run], meshes: usize, base: u32) -> (draws: Vec<BlendedDraw>)
    requires
        forall|i: int|
            0 <= i < runs@.len() && drawable(#[trigger] runs@[i], meshes) ==> base + (
            runs@[i].start as u32) <= u32::MAX,
    ensures
        draws@ == blended_of(runs@, meshes, base, runs@.len() as int),
{
    let mut draws: Vec<BlendedDraw> = Vec::new();
    let mut i: usize = 0;
    while i < runs.len()
        invariant
            i <= runs@.len(),
            forall|j: int|
                0 <= j < runs@.len() && drawable(#[trigger] runs@[j], meshes) ==> base + (
                runs@[j].start as u32) <= u32::MAX,
            draws@ == blended_of(runs@, meshes, base, i as int),
        decreases runs@.len() - i,
    {
        let run = runs[i];
        if (run.mesh as usize) < meshes {
            assert(drawable(runs@[i as int], meshes));
            draws.push(
                BlendedDraw {
                    mesh: run.mesh,
                    material: run.material,
                    object_base: base + #[verifier::truncate] (run.start as u32),
                    instances: #[verifier::truncate] (run.len as u32),
                },
            );
        }
        i = i + 1;
    }
    draws
}

/// What a caster's draws bind, by number.
#[derive(Clone, Copy, Debug, PartialEq, Eq, Structural)]
pub struct CasterSets {
    pub objects: u64,
    pub materials: u64,
    pub textures: u64,
}

impl CasterSets {
    /// The sets a pipeline takes, in the order of its layout: the objects, and
    /// where alpha is tested what it is tested with.
    pub open spec fn sets_of(&self, masked: bool) -> Seq<u64> {
        if masked {
            seq![self.objects, self.materials, self.textures]
        } else {
            seq![self.objects]
        }
    }

    pub fn for_pipeline(&self, masked: bool) -> (sets: Vec<u64>)
        ensures
            sets@ == self.sets_of(masked),
    {
        let mut sets: Vec<u64> = Vec::new();
        sets.push(self.objects);
        if masked {
            sets.push(self.materials);
            sets.push(self.textures);
        }
        assert(sets@ =~= self.sets_of(masked));
        sets
    }
}

/// The material a caster's draw pushes beside its object base: none where alpha is
/// not tested, whose pipeline has no room for one.
pub fn pushed_material(draw: &Draw) -> (material: Option<u32>)
    ensures
        material == (if draw.masked {
            Some(draw.material)
        } else {
            None
        }),
{
    if draw.masked {
        Some(draw.material)
    } else {
        None
    }
}

/// A light that got tiles: which faces of the atlas are its own.
#[derive(Clone, Copy, Debug, PartialEq, Eq, Structural)]
pub struct AtlasCaster {
    pub first_face: usize,
    pub face_count: usize,
}

/// One light's list, drawn into one face.
#[derive(Clone, Copy, Debug, PartialEq, Eq, Structural)]
pub struct FaceDraw {
    pub caster: usize,
    pub face: usize,
    pub base: u32,
}

/// What the atlas pass records.
#[derive(Debug)]
pub struct AtlasPlan {
    /// The faces whose tiles are cleared, before anything is drawn.
    pub clears: Vec<usize>,
    pub draws: Vec<FaceDraw>,
}

/// The faces of the first `count` lights, in order.
pub open spec fn faces_of(casters: Seq<AtlasCaster>, count: int) -> Seq<usize>
    decreases count,
{
    if count <= 0 {
        Seq::empty()
    } else {
        faces_of(casters, count - 1) + Seq::new(
            casters[count - 1].face_count as nat,
            |i: int| (casters[count - 1].first_face + i) as usize,
        )
    }
}

/// Whether a light has anything to draw: a list, a place for its objects, and at
/// least one of them.
pub open spec fn casts(lists: Seq<usize>, bases: Seq<u32>, caster: int) -> bool {
    caster < lists.len() && caster < bases.len() && lists[caster] > 0
}

/// The draws of the first `count` lights: each light's list once per face.
pub open spec fn face_draws_of(
    casters: Seq<AtlasCaster>,
    lists: Seq<usize>,
    bases: Seq<u32>,
    count: int,
) -> Seq<FaceDraw>
    decreases count,
{
    if count <= 0 {
        Seq::empty()
    } else {
        let before = face_draws_of(casters, lists, bases, count - 1);
        if casts(lists, bases, count - 1) {
            before + Seq::new(
                casters[count - 1].face_count as nat,
                |i: int|
                    FaceDraw {
                        caster: (count - 1) as usize,
                        face: (casters[count - 1].first_face + i) as usize,
                        base: bases[count - 1],
                    },
            )
        } else {
            before
        }
    }
}

/// Record the shadow atlas: clear every assigned tile, then draw each light's
/// casters into each of its faces. `None` where no light has a tile.
///
/// `faces` is how many faces the atlas has, `lists` how long each light's list
/// is and `bases` where its objects begin.
pub fn record_atlas(casters: &[AtlasCaster], faces: usize, lists: &[usize], bases: &[u32]) -> (plan:
    Option<AtlasPlan>)
    requires
        forall|i: int|
            0 <= i < casters@.len() ==> (#[trigger] casters@[i]).first_face + casters@[i].face_count
                <= faces,
    ensures
        plan is None <==> faces_of(casters@, casters@.len() as int).len() == 0,
        plan is Some ==> plan->0.clears@ == faces_of(casters@, casters@.len() as int),
        plan is Some ==> plan->0.draws@ == face_draws_of(
            casters@,
            lists@,
            bases@,
            casters@.len() as int,
        ),
{
    let mut clears: Vec<usize> = Vec::new();
    let mut draws: Vec<FaceDraw> = Vec::new();
    let mut caster: usize = 0;
    while caster < casters.len()
        invariant
            caster <= casters@.len(),
            forall|i: int|
                0 <= i < casters@.len() ==> (#[trigger] casters@[i]).first_face
                    + casters@[i].face_count <= faces,
            clears@ == faces_of(casters@, caster as int),
            draws@ == face_draws_of(casters@, lists@, bases@, caster as int),
        decreases casters@.len() - caster,
    {
        let tiles = casters[caster];
        let draws_any = caster < lists.len() && caster < bases.len() && lists[caster] > 0;
        let ghost cleared = clears@;
        let ghost drawn = draws@;
        let mut i: usize = 0;
        while i < tiles.face_count
            invariant
                i <= tiles.face_count,
                caster < casters@.len(),
                tiles.first_face + tiles.face_count <= faces,
                draws_any == casts(lists@, bases@, caster as int),
                clears@ == cleared + Seq::new(
                    i as nat,
                    |k: int| (tiles.first_face + k) as usize,
                ),
                draws_any ==> draws@ == drawn + Seq::new(
                    i as nat,
                    |k: int|
                        FaceDraw {
                            caster,
                            face: (tiles.first_face + k) as usize,
                            base: bases@[caster as int],
                        },
                ),
                !draws_any ==> draws@ == drawn,
            decreases tiles.face_count - i,
        {
            let face: usize = tiles.first_face + i;
            let ghost cleared_so_far = clears@;
            let ghost drawn_so_far = draws@;
            clears.push(face);
            if draws_any {
                draws.push(FaceDraw { caster, face, base: bases[caster] });
            }
            i = i + 1;
            proof {
                assert(clears@ =~= cleared + Seq::new(
                    i as nat,
                    |k: int| (tiles.first_face + k) as usize,
                ));
                if draws_any {
                    assert(draws@ =~= drawn + Seq::new(
                        i as nat,
                        |k: int|
                            FaceDraw {
                                caster,
                                face: (tiles.first_face + k) as usize,
                                base: bases@[caster as int],
                            },
                    ));
                }
            }
        }
        caster = caster + 1;
        proof {
            assert(clears@ =~= faces_of(casters@, caster as int));
            assert(draws@ =~= face_draws_of(casters@, lists@, bases@, caster as int));
        }
    }
    if clears.len() == 0 {
        None
    } else {
        Some(AtlasPlan { clears, draws })
    }
}

/// The pipeline bound when draw `i` is recorded, the binds before it and its own
/// taken into account.
pub open spec fn bound_at(draws: Seq<Draw>, i: int) -> Option<bool>
    decreases i + 1,
{
    if i < 0 {
        None
    } else {
        match draws[i].bind {
            Some(masked) => Some(masked),
            None => bound_at(draws, i - 1),
        }
    }
}

/// **The bound pipeline is the one the material wants.** Whatever was skipped or
/// switched on the way, each draw happens through its own pipeline.
pub proof fn every_draw_has_its_pipeline(
    runs: Seq<Run>,
    meshes: usize,
    masked: Seq<bool>,
    base: u32,
    count: int,
    i: int,
)
    requires
        0 <= count <= runs.len(),
        0 <= i < draws_of(runs, meshes, masked, base, count).len(),
    ensures
        ({
            let draws = draws_of(runs, meshes, masked, base, count);
            &&& bound_at(draws, i) == Some(draws[i].masked)
            &&& draws[i].masked == wants_masked(draws[i].material, masked)
        }),
    decreases count, i,
{
    let draws = draws_of(runs, meshes, masked, base, count);
    let before = draws_of(runs, meshes, masked, base, count - 1);
    if i < before.len() {
        every_draw_has_its_pipeline(runs, meshes, masked, base, count - 1, i);
        bound_at_prefix(before, draws, i);
    } else if before.len() > 0 {
        every_draw_has_its_pipeline(runs, meshes, masked, base, count - 1, i - 1);
        bound_at_prefix(before, draws, i - 1);
    }
}

proof fn bound_at_prefix(before: Seq<Draw>, draws: Seq<Draw>, i: int)
    requires
        i < before.len() <= draws.len(),
        forall|k: int| 0 <= k < before.len() ==> before[k] == draws[k],
    ensures
        bound_at(before, i) == bound_at(draws, i),
    decreases i + 1,
{
    if i >= 0 {
        bound_at_prefix(before, draws, i - 1);
    }
}

/// **No bind is wasted.** A draw binds a pipeline only where it is the first or
/// the one before it used the other.
pub proof fn binds_only_on_change(
    runs: Seq<Run>,
    meshes: usize,
    masked: Seq<bool>,
    base: u32,
    count: int,
    i: int,
)
    requires
        0 <= count <= runs.len(),
        0 <= i < draws_of(runs, meshes, masked, base, count).len(),
    ensures
        ({
            let draws = draws_of(runs, meshes, masked, base, count);
            draws[i].bind is Some <==> i == 0 || draws[i - 1].masked != draws[i].masked
        }),
    decreases count,
{
    let before = draws_of(runs, meshes, masked, base, count - 1);
    if i < before.len() {
        binds_only_on_change(runs, meshes, masked, base, count - 1, i);
    }
}

/// **Nothing is drawn into a tile that was not cleared.** Every face an atlas
/// plan draws into is among the ones it clears.
pub proof fn drawn_faces_are_cleared(
    casters: Seq<AtlasCaster>,
    lists: Seq<usize>,
    bases: Seq<u32>,
    count: int,
    i: int,
)
    requires
        0 <= count <= casters.len(),
        0 <= i < face_draws_of(casters, lists, bases, count).len(),
    ensures
        faces_of(casters, count).contains(face_draws_of(casters, lists, bases, count)[i].face),
    decreases count,
{
    let before = face_draws_of(casters, lists, bases, count - 1);
    let draw = face_draws_of(casters, lists, bases, count)[i];
    let faces = faces_of(casters, count);
    let earlier = faces_of(casters, count - 1);
    if i < before.len() {
        drawn_faces_are_cleared(casters, lists, bases, count - 1, i);
        let k = choose|k: int| 0 <= k < earlier.len() && earlier[k] == draw.face;
        assert(faces[k] == draw.face);
    } else {
        let k = earlier.len() + (i - before.len());
        assert(faces[k] == draw.face);
    }
}

/// **A cut-out and a blended list draw the same objects.** Which pipelines are
/// bound aside, the two walks draw the same runs in the same order.
pub proof fn walks_draw_the_same_runs(
    runs: Seq<Run>,
    meshes: usize,
    masked: Seq<bool>,
    base: u32,
    count: int,
)
    requires
        count <= runs.len(),
    ensures
        draws_of(runs, meshes, masked, base, count).map_values(
            |draw: Draw|
                BlendedDraw {
                    mesh: draw.mesh,
                    material: draw.material,
                    object_base: draw.object_base,
                    instances: draw.instances,
                },
        ) == blended_of(runs, meshes, base, count),
    decreases count,
{
    let of = |draw: Draw|
        BlendedDraw {
            mesh: draw.mesh,
            material: draw.material,
            object_base: draw.object_base,
            instances: draw.instances,
        };
    if count > 0 {
        walks_draw_the_same_runs(runs, meshes, masked, base, count - 1);
        let before = draws_of(runs, meshes, masked, base, count - 1);
        if drawable(runs[count - 1], meshes) {
            let draw = draw_of(runs[count - 1], masked, base, before);
            assert(before.push(draw).map_values(of) =~= before.map_values(of).push(of(draw)));
        }
    }
    assert(draws_of(runs, meshes, masked, base, count).map_values(of) =~= blended_of(
        runs,
        meshes,
        base,
        count,
    ));
}

/// **Every loaded run is drawn once, in its place.** A run whose mesh was loaded has
/// the draw behind those of the loaded runs before it: its own mesh and material, as
/// many instances as it has objects, from where they begin in the frame's table. One
/// whose mesh was not loaded has none.
pub proof fn runs_are_drawn_in_order(
    runs: Seq<Run>,
    meshes: usize,
    masked: Seq<bool>,
    base: u32,
    run: int,
    count: int,
)
    requires
        0 <= run < count <= runs.len(),
        runs[run].start <= u32::MAX,
        runs[run].len <= u32::MAX,
        base + runs[run].start <= u32::MAX,
    ensures
        ({
            let at = draws_of(runs, meshes, masked, base, run).len() as int;
            let draws = draws_of(runs, meshes, masked, base, count);
            &&& runs[run].mesh < meshes ==> {
                &&& at < draws.len()
                &&& draws[at].mesh == runs[run].mesh
                &&& draws[at].material == runs[run].material
                &&& draws[at].object_base == base + runs[run].start
                &&& draws[at].instances == runs[run].len
                &&& draws[at].masked <==> runs[run].material < masked.len()
                    && masked[runs[run].material as int]
                &&& draws_of(runs, meshes, masked, base, run + 1).len() == at + 1
            }
            &&& runs[run].mesh >= meshes ==> draws_of(
                runs,
                meshes,
                masked,
                base,
                run + 1,
            ).len() == at
        }),
        draws_of(runs, meshes, masked, base, 0).len() == 0,
    decreases count,
{
    if run < count - 1 {
        runs_are_drawn_in_order(runs, meshes, masked, base, run, count - 1);
    }
}

/// **A cut-out binds what it tests its alpha with.** Every caster binds its objects
/// first; only one that tests alpha binds its materials and their textures behind them.
pub proof fn casters_bind_what_they_test(sets: CasterSets, masked: bool)
    ensures
        sets.sets_of(masked).len() == (if masked {
            3int
        } else {
            1
        }),
        sets.sets_of(masked)[0] == sets.objects,
        masked ==> sets.sets_of(masked)[1] == sets.materials && sets.sets_of(masked)[2]
            == sets.textures,
{
}

/// **Every tile of a light is cleared, in order.** Face `k` of a light stands in the
/// clears behind the faces of the lights before it; and nothing else is cleared.
pub proof fn tiles_are_cleared_in_order(
    casters: Seq<AtlasCaster>,
    caster: int,
    k: int,
    count: int,
)
    requires
        0 <= caster < count <= casters.len(),
        casters[caster].first_face + casters[caster].face_count <= usize::MAX,
    ensures
        ({
            let before = faces_of(casters, caster).len() as int;
            &&& 0 <= k < casters[caster].face_count ==> before + k < faces_of(casters, count).len()
                && faces_of(casters, count)[before + k] == casters[caster].first_face + k
            &&& faces_of(casters, caster + 1).len() == before + casters[caster].face_count
        }),
        faces_of(casters, 0).len() == 0,
    decreases count,
{
    if caster < count - 1 {
        tiles_are_cleared_in_order(casters, caster, k, count - 1);
    }
}

/// **Every light that casts is drawn into each of its faces.** Its draws stand behind
/// those of the lights before it, one a face, each of its own list from where that
/// list's objects begin; a light without a list, without a place for its objects or
/// without any of them has none.
pub proof fn lights_are_drawn_into_their_faces(
    casters: Seq<AtlasCaster>,
    lists: Seq<usize>,
    bases: Seq<u32>,
    caster: int,
    k: int,
    count: int,
)
    requires
        0 <= caster < count <= casters.len() <= usize::MAX,
        casters[caster].first_face + casters[caster].face_count <= usize::MAX,
    ensures
        ({
            let before = face_draws_of(casters, lists, bases, caster).len() as int;
            let all = face_draws_of(casters, lists, bases, count);
            let drawn = caster < lists.len() && caster < bases.len() && lists[caster] > 0;
            &&& drawn && 0 <= k < casters[caster].face_count ==> {
                &&& before + k < all.len()
                &&& all[before + k].caster == caster
                &&& all[before + k].face == casters[caster].first_face + k
                &&& all[before + k].base == bases[caster]
            }
            &&& face_draws_of(casters, lists, bases, caster + 1).len() == before + (if drawn {
                casters[caster].face_count as int
            } else {
                0
            })
        }),
        face_draws_of(casters, lists, bases, 0).len() == 0,
    decreases count,
{
    if caster < count - 1 {
        lights_are_drawn_into_their_faces(casters, lists, bases, caster, k, count - 1);
    }
}

} // verus!
