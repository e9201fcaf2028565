//! The images a compiled frame owns: which of them exist already, which have to
//! be created, and which of them share memory.
//!
//! Images and blocks of memory are named by number. Whoever owns the device
//! creates what is asked for and hands back the number it goes by.

use crate::extents::{chain, larger, max_mip_levels};
use crate::frame::ResourceId;
use crate::text::{join, joined, same, trim, trimmed};
use crate::transitions::Subresources;
use vstd::prelude::*;

verus! {

/// The usage bit of an image that shaders store to.
pub const STORAGE: u32 = 8;

/// One image the graph declared for the frame and nobody keeps past it.
#[derive(Clone, Copy, Debug)]
pub struct TransientImage {
    /// The resource it backs, by index.
    pub id: usize,
    pub format: u32,
    /// Its width and height at the frame's extent.
    pub width: u32,
    pub height: u32,
    /// Texels deep, for a volume.
    pub depth: Option<u32>,
    pub samples: u32,
    /// Layers, for an array.
    pub array_layers: Option<u32>,
    /// Levels asked for; a small image carries fewer.
    pub mip_levels: u32,
    pub usage: u32,
    /// Whether it never leaves the pass that writes it.
    pub memoryless: bool,
    /// Whether both queues reach it.
    pub concurrent: bool,
    /// The group of images, never alive at the same time, that it is one of.
    pub alias: Option<usize>,
}

/// What the compiler decided about a frame's images.
#[derive(Debug)]
pub struct Graph {
    /// The name of every resource, by index.
    pub names: Vec<String>,
    pub transients: Vec<TransientImage>,
    /// The members of every alias group, by index.
    pub alias_groups: Vec<Vec<usize>>,
}

/// How an image's view sees it. It follows from the declaration, not from the
/// layer count: an array of one layer is still an array to the sampler.
#[derive(Clone, Copy, Debug, PartialEq, Eq, Structural)]
pub enum ViewType {
    Dim2d,
    Dim2dArray,
    Dim3d,
}

/// Everything that distinguishes one allocation from another.
///
/// The name is in it because two resources can be identical in every other field
/// and still have to be separate images; the slot because the copies are separate
/// by definition; and the group because memory is bound to an image for its life.
#[derive(Debug)]
pub struct ImageKey {
    pub name: String,
    pub slot: usize,
    pub concurrent: bool,
    pub format: u32,
    pub width: u32,
    pub height: u32,
    pub depth: u32,
    pub usage: u32,
    pub samples: u32,
    pub array_layers: u32,
    pub mip_levels: u32,
    pub memoryless: bool,
    /// The alias group, named by its members, or `None` for an image allocated
    /// alone.
    pub alias: Option<String>,
}

/// An image's key, as values.
#[verifier::ext_equal]
pub struct KeyView {
    pub name: Seq<char>,
    pub slot: usize,
    pub concurrent: bool,
    pub format: u32,
    pub width: u32,
    pub height: u32,
    pub depth: u32,
    pub usage: u32,
    pub samples: u32,
    pub array_layers: u32,
    pub mip_levels: u32,
    pub memoryless: bool,
    pub alias: Option<Seq<char>>,
}

/// The text of an optional name.
pub open spec fn text_of(text: Option<String>) -> Option<Seq<char>> {
    match text {
        Some(text) => Some(text@),
        None => None,
    }
}

impl ImageKey {
    pub open spec fn view(&self) -> KeyView {
        KeyView {
            name: self.name@,
            slot: self.slot,
            concurrent: self.concurrent,
            format: self.format,
            width: self.width,
            height: self.height,
            depth: self.depth,
            usage: self.usage,
            samples: self.samples,
            array_layers: self.array_layers,
            mip_levels: self.mip_levels,
            memoryless: self.memoryless,
            alias: text_of(self.alias),
        }
    }

    /// Whether two keys are the same.
    pub fn same(&self, other: &ImageKey) -> (equal: bool)
        ensures
            equal == (self@ == other@),
    {
        let alias = match (&self.alias, &other.alias) {
            (Some(a), Some(b)) => *a == *b,
            (None, None) => true,
            _ => false,
        };
        self.name == other.name && self.slot == other.slot && self.concurrent == other.concurrent
            && self.format == other.format && self.width == other.width && self.height
            == other.height && self.depth == other.depth && self.usage == other.usage
            && self.samples == other.samples && self.array_layers == other.array_layers
            && self.mip_levels == other.mip_levels && self.memoryless == other.memoryless && alias
    }
}

/// Everything that distinguishes one shared block of memory from another.
#[derive(Debug)]
pub struct BlockKey {
    pub group: String,
    pub slot: usize,
    pub size: u64,
    pub memory_type_index: u32,
}

/// A block's key, as values.
#[verifier::ext_equal]
pub struct BlockView {
    pub group: Seq<char>,
    pub slot: usize,
    pub size: u64,
    pub memory_type_index: u32,
}

impl BlockKey {
    pub open spec fn view(&self) -> BlockView {
        BlockView {
            group: self.group@,
            slot: self.slot,
            size: self.size,
            memory_type_index: self.memory_type_index,
        }
    }
}

/// An image that exists.
#[derive(Debug)]
pub struct CachedImage {
    pub key: ImageKey,
    pub view: u64,
}

/// A block that exists.
#[derive(Debug)]
pub struct CachedBlock {
    pub key: BlockKey,
    pub memory: u64,
}

/// An image that has to be created.
#[derive(Debug)]
pub struct ImageRequest {
    pub key: ImageKey,
    /// The resource it will back, by index.
    pub id: usize,
    pub view_type: ViewType,
    /// The usage its view claims: a storage descriptor takes exactly one level,
    /// so a view over a whole pyramid cannot claim that one.
    pub view_usage: u32,
    /// Whether to ask for memory that a tiler never backs.
    pub lazy: bool,
}

/// A request, as values.
#[verifier::ext_equal]
pub struct RequestView {
    pub key: KeyView,
    pub id: usize,
    pub view_type: ViewType,
    pub view_usage: u32,
    pub lazy: bool,
}

impl ImageRequest {
    pub open spec fn view(&self) -> RequestView {
        RequestView {
            key: self.key@,
            id: self.id,
            view_type: self.view_type,
            view_usage: self.view_usage,
            lazy: self.lazy,
        }
    }
}

/// The image with some key among those that exist.
pub open spec fn find(cache: Seq<CachedImage>, key: KeyView) -> Option<u64>
    decreases cache.len(),
{
    if cache.len() == 0 {
        None
    } else if cache.last().key@ == key {
        Some(cache.last().view)
    } else {
        find(cache.drop_last(), key)
    }
}

/// The block with some key among those that exist.
pub open spec fn find_block(blocks: Seq<CachedBlock>, key: BlockView) -> Option<u64>
    decreases blocks.len(),
{
    if blocks.len() == 0 {
        None
    } else if blocks.last().key@ == key {
        Some(blocks.last().memory)
    } else {
        find_block(blocks.drop_last(), key)
    }
}

/// How a frame's images are allocated on this device.
#[derive(Clone, Copy, Debug, PartialEq, Eq, Structural)]
pub struct Sharing {
    /// Whether the device has a second queue family to share images with.
    pub families: bool,
    /// Whether transients that are never alive together share their memory.
    pub aliases: bool,
}

impl Graph {
    /// The declarations hang together: every index is one, no two images back
    /// one resource, and none is both a volume and an array.
    pub open spec fn wf(&self) -> bool {
        &&& forall|t: int|
            0 <= t < self.transients@.len() ==> {
                &&& (#[trigger] self.transients@[t]).id < self.names@.len()
                &&& self.transients@[t].alias is Some ==> self.transients@[t].alias->0
                    < self.alias_groups@.len()
                &&& self.transients@[t].depth is None || self.transients@[t].array_layers is None
            }
        &&& forall|a: int, b: int|
            0 <= a < b < self.transients@.len() ==> (#[trigger] self.transients@[a]).id != (
            #[trigger] self.transients@[b]).id
        &&& forall|g: int, i: int|
            0 <= g < self.alias_groups@.len() && 0 <= i < self.alias_groups@[g]@.len()
                ==> #[trigger] self.alias_groups@[g]@[i] < self.names@.len()
    }

    /// An alias group's name: its members', joined.
    pub open spec fn group_name(&self, group: int) -> Seq<char> {
        joined(
            self.alias_groups@[group]@.map_values(|id: usize| self.names@[id as int]@),
            "+"@,
        )
    }

    /// The levels a transient gets.
    pub open spec fn levels_of(&self, t: int) -> u32 {
        let image = self.transients@[t];
        let most = chain(larger(image.width, image.height) as nat);
        if image.mip_levels < most {
            image.mip_levels
        } else {
            most as u32
        }
    }

    /// What makes a transient's copy in some slot that image.
    pub open spec fn key_of(&self, t: int, slot: usize, sharing: Sharing) -> KeyView {
        let image = self.transients@[t];
        KeyView {
            name: self.names@[image.id as int]@,
            slot,
            concurrent: image.concurrent && sharing.families,
            format: image.format,
            width: image.width,
            height: image.height,
            depth: match image.depth {
                Some(depth) => depth,
                None => 1,
            },
            usage: image.usage,
            samples: image.samples,
            array_layers: match image.array_layers {
                Some(layers) => layers,
                None => 1,
            },
            mip_levels: self.levels_of(t),
            memoryless: image.memoryless,
            alias: match image.alias {
                Some(group) => if sharing.aliases {
                    Some(self.group_name(group as int))
                } else {
                    None
                },
                None => None,
            },
        }
    }

    /// No two transients describe the same image.
    pub open spec fn keys_differ(&self, sharing: Sharing) -> bool {
        forall|a: int, b: int, slot: usize|
            0 <= a < b < self.transients@.len() ==> #[trigger] self.key_of(a, slot, sharing)
                != #[trigger] self.key_of(b, slot, sharing)
    }

    /// What to create for a transient's copy in some slot.
    pub open spec fn request_of(&self, t: int, slot: usize, sharing: Sharing) -> RequestView {
        let image = self.transients@[t];
        RequestView {
            key: self.key_of(t, slot, sharing),
            id: image.id,
            view_type: if image.depth is Some {
                ViewType::Dim3d
            } else if image.array_layers is Some {
                ViewType::Dim2dArray
            } else {
                ViewType::Dim2d
            },
            view_usage: if self.levels_of(t) > 1 {
                image.usage & !STORAGE
            } else {
                image.usage
            },
            lazy: image.memoryless && self.key_of(t, slot, sharing).alias is None,
        }
    }

    /// What is missing of one slot's copies, the first `count` transients of it.
    pub open spec fn missing_in(
        &self,
        cache: Seq<CachedImage>,
        sharing: Sharing,
        slot: usize,
        count: int,
    ) -> Seq<RequestView>
        decreases count,
    {
        if count <= 0 {
            Seq::empty()
        } else {
            let rest = self.missing_in(cache, sharing, slot, count - 1);
            if find(cache, self.key_of(count - 1, slot, sharing)) is None {
                rest.push(self.request_of(count - 1, slot, sharing))
            } else {
                rest
            }
        }
    }

    /// What is missing of the first `slots` slots, in order.
    pub open spec fn missing(
        &self,
        cache: Seq<CachedImage>,
        sharing: Sharing,
        slots: int,
    ) -> Seq<RequestView>
        decreases slots,
    {
        if slots <= 0 {
            Seq::empty()
        } else {
            self.missing(cache, sharing, slots - 1) + self.missing_in(
                cache,
                sharing,
                (slots - 1) as usize,
                self.transients@.len() as int,
            )
        }
    }

    /// One slot's views are right for the first `count` transients: each backs
    /// its resource with the image that exists for it, if one does.
    pub open spec fn row_matches(
        &self,
        row: Seq<Option<u64>>,
        cache: Seq<CachedImage>,
        sharing: Sharing,
        slot: usize,
        count: int,
    ) -> bool {
        &&& row.len() == self.names@.len()
        &&& forall|t: int|
            0 <= t < count ==> row[(#[trigger] self.transients@[t]).id as int] == find(
                cache,
                self.key_of(t, slot, sharing),
            )
        &&& forall|r: int|
            0 <= r < row.len() && (forall|t: int|
                0 <= t < count ==> (#[trigger] self.transients@[t]).id != r)
                ==> (#[trigger] row[r]) is None
    }

    fn group_names(&self) -> (groups: Vec<String>)
        requires
            self.wf(),
        ensures
            groups@.len() == self.alias_groups@.len(),
            forall|g: int| 0 <= g < groups@.len() ==> (#[trigger] groups@[g])@ == self.group_name(g),
    {
        let mut groups: Vec<String> = Vec::new();
        let mut g: usize = 0;
        while g < self.alias_groups.len()
            invariant
                self.wf(),
                g <= self.alias_groups@.len(),
                groups@.len() == g,
                forall|k: int| 0 <= k < g ==> (#[trigger] groups@[k])@ == self.group_name(k),
            decreases self.alias_groups@.len() - g,
        {
            let members = &self.alias_groups[g];
            let mut parts: Vec<String> = Vec::new();
            let mut i: usize = 0;
            while i < members.len()
                invariant
                    self.wf(),
                    g < self.alias_groups@.len(),
                    members@ == self.alias_groups@[g as int]@,
                    i <= members@.len(),
                    parts@.len() == i,
                    forall|k: int|
                        0 <= k < i ==> (#[trigger] parts@[k])@ == self.names@[members@[k] as int]@,
                decreases members@.len() - i,
            {
                assert(self.alias_groups@[g as int]@[i as int] < self.names@.len());
                parts.push(self.names[members[i]].clone());
                i = i + 1;
            }
            assert(parts@.map_values(|part: String| part@) =~= self.alias_groups@[g as int]@
                .map_values(|id: usize| self.names@[id as int]@));
            groups.push(join(&parts, "+"));
            g = g + 1;
        }
        groups
    }

    fn key(&self, t: usize, slot: usize, sharing: Sharing, groups: &Vec<String>) -> (key: ImageKey)
        requires
            self.wf(),
            t < self.transients@.len(),
            groups@.len() == self.alias_groups@.len(),
            forall|g: int| 0 <= g < groups@.len() ==> (#[trigger] groups@[g])@ == self.group_name(g),
        ensures
            key@ == self.key_of(t as int, slot, sharing),
    {
        let image = self.transients[t];
        assert(self.transients@[t as int].id < self.names@.len());
        let most: u32 = max_mip_levels([image.width, image.height]);
        let alias = match image.alias {
            Some(group) => if sharing.aliases {
                Some(groups[group].clone())
            } else {
                None
            },
            None => None,
        };
        ImageKey {
            name: self.names[image.id].clone(),
            slot,
            concurrent: image.concurrent && sharing.families,
            format: image.format,
            width: image.width,
            height: image.height,
            depth: image.depth.unwrap_or(1),
            usage: image.usage,
            samples: image.samples,
            array_layers: image.array_layers.unwrap_or(1),
            mip_levels: if image.mip_levels < most {
                image.mip_levels
            } else {
                most
            },
            memoryless: image.memoryless,
            alias,
        }
    }
}

/// Graph-owned images, by frame in flight and resource.
#[derive(Debug)]
pub struct GraphImages {
    /// One set of views per frame in flight, indexed by slot and resource. One
    /// set unless the frame was split across two queues.
    pub views: Vec<Vec<Option<u64>>>,
    /// Which set the frame now recording uses.
    pub slot: usize,
    /// Every image allocated at the current extent, for any graph: a structural
    /// toggle re-points the views at images that already exist.
    pub cache: Vec<CachedImage>,
    /// The memory that alias groups share.
    pub blocks: Vec<CachedBlock>,
    /// The extent these were allocated at.
    pub extent: [u32; 2],
}

/// Keys and images pair off: no two entries share a key, and none shares an
/// image.
pub open spec fn pairs_off(cache: Seq<CachedImage>) -> bool {
    forall|a: int, b: int|
        0 <= a < b < cache.len() ==> (#[trigger] cache[a]).key@ != (#[trigger] cache[b]).key@
            && cache[a].view != cache[b].view
}

/// What describes an image, by its view.
pub open spec fn described(cache: Seq<CachedImage>, view: u64) -> Option<KeyView>
    decreases cache.len(),
{
    if cache.len() == 0 {
        None
    } else if cache.last().view == view {
        Some(cache.last().key@)
    } else {
        described(cache.drop_last(), view)
    }
}

impl GraphImages {
    pub open spec fn wf(&self) -> bool {
        pairs_off(self.cache@)
    }

    /// The images that outlive a change of extent: all of them where it does not
    /// change, and none where it does.
    pub open spec fn kept(&self, extent: [u32; 2]) -> Seq<CachedImage> {
        if self.extent@ == extent@ {
            self.cache@
        } else {
            Seq::empty()
        }
    }

    /// What taking in an image changes: the key has it, the resource's view in the
    /// key's slot is it, and everything else is as it was.
    pub open spec fn installed(self, after: GraphImages, request: RequestView, view: u64) -> bool {
        let slot = request.key.slot as int;
        &&& find(after.cache@, request.key) == Some(view)
        &&& forall|key: KeyView|
            key != request.key ==> #[trigger] find(after.cache@, key) == find(self.cache@, key)
        &&& after.views@.len() == self.views@.len()
        &&& after.views@[slot]@ == self.views@[slot]@.update(request.id as int, Some(view))
        &&& forall|s: int|
            0 <= s < self.views@.len() && s != slot ==> #[trigger] after.views@[s]
                == self.views@[s]
    }

    /// Every slot's views are right for a graph.
    pub open spec fn matches(&self, graph: Graph, sharing: Sharing) -> bool {
        forall|s: int|
            0 <= s < self.views@.len() ==> graph.row_matches(
                (#[trigger] self.views@[s])@,
                self.cache@,
                sharing,
                s as usize,
                graph.transients@.len() as int,
            )
    }

    /// No images yet.
    pub fn allocate(extent: [u32; 2]) -> (images: Self)
        ensures
            images.wf(),
            images.views@.len() == 0,
            images.slot == 0,
            images.cache@.len() == 0,
            images.blocks@.len() == 0,
            images.extent == extent,
    {
        GraphImages {
            views: Vec::new(),
            slot: 0,
            cache: Vec::new(),
            blocks: Vec::new(),
            extent,
        }
    }

    /// Whether the images were allocated at another extent.
    pub fn is_stale(&self, extent: [u32; 2]) -> (stale: bool)
        ensures
            stale == (self.extent@ != extent@),
    {
        let stale = self.extent[0] != extent[0] || self.extent[1] != extent[1];
        proof {
            if !stale {
                assert(self.extent@ =~= extent@);
            }
        }
        stale
    }

    /// Point the accessors at the set that a frame records into: the frames take
    /// the sets in turn.
    pub fn set_slot(&mut self, frame: u64)
        requires
            old(self).wf(),
        ensures
            *final(self) == (GraphImages {
                slot: final(self).slot,
                ..*old(self)
            }),
            final(self).slot == (if old(self).views@.len() == 0 {
                0
            } else {
                frame as int % old(self).views@.len() as int
            }),
    {
        let sets: u64 = if self.views.len() == 0 {
            1
        } else {
            self.views.len() as u64
        };
        proof {
            vstd::arithmetic::div_mod::lemma_mod_bound(frame as int, sets as int);
            if sets == 1 {
                vstd::arithmetic::div_mod::lemma_mod_bound(frame as int, 1);
            }
        }
        self.slot = (frame % sets) as usize;
    }

    /// How many frames' worth of images this holds.
    pub fn slots(&self) -> (slots: usize)
        ensures
            slots == self.views@.len(),
    {
        self.views.len()
    }

    /// The image with some key, if it exists.
    pub fn cached(&self, key: &ImageKey) -> (view: Option<u64>)
        ensures
            view == find(self.cache@, key@),
    {
        let mut i: usize = self.cache.len();
        assert(self.cache@.subrange(0, i as int) =~= self.cache@);
        while i > 0
            invariant
                i <= self.cache@.len(),
                find(self.cache@, key@) == find(self.cache@.subrange(0, i as int), key@),
            decreases i,
        {
            let ghost prefix = self.cache@.subrange(0, i as int);
            assert(prefix.last() == self.cache@[i - 1]);
            assert(prefix.drop_last() =~= self.cache@.subrange(0, i - 1));
            if self.cache[i - 1].key.same(key) {
                return Some(self.cache[i - 1].view);
            }
            i = i - 1;
        }
        None
    }

    /// Point the views at the images this graph declares, and say which of them
    /// have to be created. Another extent drops everything first.
    pub fn rebuild(&mut self, graph: &Graph, extent: [u32; 2], slots: usize, sharing: Sharing) -> (requests:
        Vec<ImageRequest>)
        requires
            old(self).wf(),
            graph.wf(),
            graph.keys_differ(sharing),
        ensures
            final(self).wf(),
            final(self).extent == extent,
            final(self).cache@ == old(self).kept(extent),
            old(self).extent@ == extent@ ==> final(self).blocks@ == old(self).blocks@,
            old(self).extent@ != extent@ ==> final(self).blocks@.len() == 0,
            final(self).slot == (if slots == 0 {
                0
            } else if old(self).slot < slots {
                old(self).slot as int
            } else {
                slots - 1
            }),
            final(self).views@.len() == slots,
            final(self).matches(*graph, sharing),
            requests@.map_values(|request: ImageRequest| request@) == graph.missing(
                old(self).kept(extent),
                sharing,
                slots as int,
            ),
    {
        let ghost kept = self.kept(extent);
        if self.is_stale(extent) {
            self.cache = Vec::new();
            self.blocks = Vec::new();
            assert(self.cache@ =~= kept);
        }
        self.extent = extent;
        let groups = graph.group_names();
        let mut sets: Vec<Vec<Option<u64>>> = Vec::new();
        let mut requests: Vec<ImageRequest> = Vec::new();
        let ghost of = |request: ImageRequest| request@;
        assert(requests@.map_values(of) =~= graph.missing(kept, sharing, 0));
        let mut slot: usize = 0;
        while slot < slots
            invariant
                graph.wf(),
                self.cache@ == kept,
                groups@.len() == graph.alias_groups@.len(),
                forall|g: int|
                    0 <= g < groups@.len() ==> (#[trigger] groups@[g])@ == graph.group_name(g),
                slot <= slots,
                sets@.len() == slot,
                of == (|request: ImageRequest| request@),
                forall|s: int|
                    0 <= s < slot ==> graph.row_matches(
                        (#[trigger] sets@[s])@,
                        kept,
                        sharing,
                        s as usize,
                        graph.transients@.len() as int,
                    ),
                requests@.map_values(of) == graph.missing(kept, sharing, slot as int),
            decreases slots - slot,
        {
            let mut row: Vec<Option<u64>> = Vec::new();
            while row.len() < graph.names.len()
                invariant
                    row@.len() <= graph.names@.len(),
                    forall|r: int| 0 <= r < row@.len() ==> (#[trigger] row@[r]) is None,
                decreases graph.names@.len() - row@.len(),
            {
                row.push(None);
            }
            let ghost before = graph.missing(kept, sharing, slot as int);
            let mut t: usize = 0;
            assert(before + graph.missing_in(kept, sharing, slot, 0) =~= before);
            while t < graph.transients.len()
                invariant
                    graph.wf(),
                    self.cache@ == kept,
                    groups@.len() == graph.alias_groups@.len(),
                    forall|g: int|
                        0 <= g < groups@.len() ==> (#[trigger] groups@[g])@ == graph.group_name(g),
                    t <= graph.transients@.len(),
                    of == (|request: ImageRequest| request@),
                    graph.row_matches(row@, kept, sharing, slot, t as int),
                    requests@.map_values(of) == before + graph.missing_in(
                        kept,
                        sharing,
                        slot,
                        t as int,
                    ),
                decreases graph.transients@.len() - t,
            {
                let image = graph.transients[t];
                let key = graph.key(t, slot, sharing, &groups);
                let view = self.cached(&key);
                let id: usize = image.id;
                let ghost old_row = row@;
                let ghost old_requests = requests@;
                assert(graph.transients@[t as int].id < graph.names@.len());
                match view {
                    Some(view) => {
                        row.set(id, Some(view));
                    },
                    None => {
                        let levels: u32 = key.mip_levels;
                        let alone = match &key.alias {
                            Some(_) => false,
                            None => true,
                        };
                        let request = ImageRequest {
                            id,
                            view_type: match (image.depth, image.array_layers) {
                                (Some(_), _) => ViewType::Dim3d,
                                (None, Some(_)) => ViewType::Dim2dArray,
                                (None, None) => ViewType::Dim2d,
                            },
                            view_usage: if levels > 1 {
                                image.usage & !STORAGE
                            } else {
                                image.usage
                            },
                            lazy: image.memoryless && alone,
                            key,
                        };
                        assert(request@ == graph.request_of(t as int, slot, sharing));
                        requests.push(request);
                        assert(requests@.map_values(of) =~= old_requests.map_values(of).push(
                            request@,
                        ));
                    },
                }
                proof {
                    let after = graph.missing_in(kept, sharing, slot, t as int + 1);
                    let earlier = graph.missing_in(kept, sharing, slot, t as int);
                    if view is None {
                        assert(before + after =~= (before + earlier).push(
                            graph.request_of(t as int, slot, sharing),
                        ));
                    }
                    assert forall|k: int| 0 <= k < t + 1 implies row@[(
                    #[trigger] graph.transients@[k]).id as int] == find(
                        kept,
                        graph.key_of(k, slot, sharing),
                    ) by {
                        if k < t {
                            assert(graph.transients@[k].id != graph.transients@[t as int].id);
                        } else {
                            assert(old_row[id as int] is None);
                        }
                    }
                    assert forall|r: int|
                        0 <= r < row@.len() && (forall|k: int|
                            0 <= k < t + 1 ==> (#[trigger] graph.transients@[k]).id
                                != r) implies (#[trigger] row@[r]) is None by {
                        assert(graph.transients@[t as int].id != r);
                        assert(old_row[r] is None);
                    }
                }
                t = t + 1;
            }
            sets.push(row);
            slot = slot + 1;
        }
        self.views = sets;
        self.slot = if slots == 0 {
            0
        } else if self.slot < slots {
            self.slot
        } else {
            slots - 1
        };
        requests
    }

    /// Take in an image that was created for a request.
    pub fn install(&mut self, request: ImageRequest, view: u64)
        requires
            old(self).wf(),
            request.key.slot < old(self).views@.len(),
            request.id < old(self).views@[request.key.slot as int]@.len(),
            find(old(self).cache@, request.key@) is None,
            forall|i: int|
                0 <= i < old(self).cache@.len() ==> (#[trigger] old(self).cache@[i]).view != view,
        ensures
            final(self).wf(),
            old(self).installed(*final(self), request@, view),
            final(self).slot == old(self).slot,
            final(self).extent == old(self).extent,
            final(self).blocks == old(self).blocks,
    {
        let slot: usize = request.key.slot;
        let id: usize = request.id;
        let ghost before = self.cache@;
        let ghost added = request.key@;
        let row = &mut self.views[slot];
        row.set(id, Some(view));
        self.cache.push(CachedImage { key: request.key, view });
        proof {
            assert(self.cache@.drop_last() =~= before);
            assert forall|a: int, b: int| 0 <= a < b < self.cache@.len() implies (
            #[trigger] self.cache@[a]).key@ != (#[trigger] self.cache@[b]).key@
                && self.cache@[a].view != self.cache@[b].view by {
                if b == before.len() {
                    if self.cache@[a].key@ == added {
                        found_if_there(before, a);
                    }
                    assert(before[a].view != view);
                } else {
                    assert(before[a].key@ != before[b].key@);
                }
            }
        }
    }

    /// The view backing a resource, or `None` for one this graph does not own:
    /// an imported image, or a buffer.
    pub fn try_view(&self, id: ResourceId) -> (view: Option<u64>)
        requires
            self.slot < self.views@.len(),
            id.index < self.views@[self.slot as int]@.len(),
        ensures
            view == self.views@[self.slot as int]@[id.index as int],
    {
        self.views[self.slot][id.index]
    }

    /// The image behind a resource, by what describes it; `None` for one this
    /// graph does not own.
    pub open spec fn backing(&self, id: ResourceId) -> Option<KeyView> {
        match self.views@[self.slot as int]@[id.index as int] {
            Some(view) => described(self.cache@, view),
            None => None,
        }
    }

    fn described(&self, view: u64) -> (at: Option<usize>)
        ensures
            at is Some <==> described(self.cache@, view) is Some,
            at matches Some(at) ==> at < self.cache@.len() && Some(self.cache@[at as int].key@)
                == described(self.cache@, view),
    {
        let mut i: usize = self.cache.len();
        assert(self.cache@.subrange(0, i as int) =~= self.cache@);
        while i > 0
            invariant
                i <= self.cache@.len(),
                described(self.cache@, view) == described(self.cache@.subrange(0, i as int), view),
            decreases i,
        {
            let ghost prefix = self.cache@.subrange(0, i as int);
            assert(prefix.last() == self.cache@[i - 1]);
            assert(prefix.drop_last() =~= self.cache@.subrange(0, i - 1));
            if self.cache[i - 1].view == view {
                return Some(i - 1);
            }
            i = i - 1;
        }
        None
    }

    /// How many levels an image has, which is what a pass that fills a pyramid
    /// goes by: a small window cannot honour the declaration.
    pub fn mip_levels(&self, id: ResourceId) -> (levels: Option<u32>)
        requires
            self.slot < self.views@.len(),
            id.index < self.views@[self.slot as int]@.len(),
        ensures
            levels == (match self.backing(id) {
                Some(key) => Some(key.mip_levels),
                None => None,
            }),
    {
        match self.try_view(id) {
            Some(view) => match self.described(view) {
                Some(at) => Some(self.cache[at].key.mip_levels),
                None => None,
            },
            None => None,
        }
    }

    /// The width and height of an image, which is not always the frame's.
    pub fn extent(&self, id: ResourceId) -> (extent: Option<(u32, u32)>)
        requires
            self.slot < self.views@.len(),
            id.index < self.views@[self.slot as int]@.len(),
        ensures
            extent == (match self.backing(id) {
                Some(key) => Some((key.width, key.height)),
                None => None,
            }),
    {
        match self.try_view(id) {
            Some(view) => match self.described(view) {
                Some(at) => Some((self.cache[at].key.width, self.cache[at].key.height)),
                None => None,
            },
            None => None,
        }
    }

    /// One layer of an array, as an attachment takes it; `None` for a layer that
    /// the image does not have.
    pub fn layer_view(&self, id: ResourceId, layer: u32) -> (range: Option<Subresources>)
        requires
            self.slot < self.views@.len(),
            id.index < self.views@[self.slot as int]@.len(),
        ensures
            range == (match self.backing(id) {
                Some(key) => if layer < key.array_layers {
                    Some(
                        Subresources {
                            first_mip: 0,
                            end_mip: key.mip_levels,
                            first_layer: layer,
                            end_layer: (layer + 1) as u32,
                        },
                    )
                } else {
                    None
                },
                None => None,
            }),
    {
        match self.try_view(id) {
            Some(view) => match self.described(view) {
                Some(at) => {
                    let key = &self.cache[at].key;
                    if layer < key.array_layers {
                        Some(
                            Subresources {
                                first_mip: 0,
                                end_mip: key.mip_levels,
                                first_layer: layer,
                                end_layer: layer + 1,
                            },
                        )
                    } else {
                        None
                    }
                },
                None => None,
            },
            None => None,
        }
    }

    /// One level of a pyramid, as a storage image descriptor takes it; `None` for
    /// a level that the image does not have.
    pub fn mip_view(&self, id: ResourceId, level: u32) -> (range: Option<Subresources>)
        requires
            self.slot < self.views@.len(),
            id.index < self.views@[self.slot as int]@.len(),
        ensures
            range == (match self.backing(id) {
                Some(key) => if level < key.mip_levels {
                    Some(
                        Subresources {
                            first_mip: level,
                            end_mip: (level + 1) as u32,
                            first_layer: 0,
                            end_layer: key.array_layers,
                        },
                    )
                } else {
                    None
                },
                None => None,
            }),
    {
        match self.try_view(id) {
            Some(view) => match self.described(view) {
                Some(at) => {
                    let key = &self.cache[at].key;
                    if level < key.mip_levels {
                        Some(
                            Subresources {
                                first_mip: level,
                                end_mip: level + 1,
                                first_layer: 0,
                                end_layer: key.array_layers,
                            },
                        )
                    } else {
                        None
                    }
                },
                None => None,
            },
            None => None,
        }
    }

    /// The block of memory a group's images share, if it exists.
    pub fn block(&self, group: &str, slot: usize, size: u64, memory_type_index: u32) -> (memory:
        Option<u64>)
        ensures
            memory == find_block(
                self.blocks@,
                (BlockView { group: group@, slot, size, memory_type_index }),
            ),
    {
        let ghost key = BlockView { group: group@, slot, size, memory_type_index };
        let wanted: String = group.to_owned();
        let mut i: usize = self.blocks.len();
        assert(self.blocks@.subrange(0, i as int) =~= self.blocks@);
        while i > 0
            invariant
                i <= self.blocks@.len(),
                wanted@ == group@,
                key == (BlockView { group: group@, slot, size, memory_type_index }),
                find_block(self.blocks@, key) == find_block(
                    self.blocks@.subrange(0, i as int),
                    key,
                ),
            decreases i,
        {
            let ghost prefix = self.blocks@.subrange(0, i as int);
            assert(prefix.last() == self.blocks@[i - 1]);
            assert(prefix.drop_last() =~= self.blocks@.subrange(0, i - 1));
            let block = &self.blocks[i - 1];
            if block.key.group == wanted && block.key.slot == slot && block.key.size == size
                && block.key.memory_type_index == memory_type_index {
                assert(block.key@ == key);
                return Some(block.memory);
            }
            assert(block.key@ != key);
            i = i - 1;
        }
        None
    }

    /// Take in a block that was allocated for a group.
    pub fn install_block(&mut self, key: BlockKey, memory: u64)
        requires
            old(self).wf(),
        ensures
            *final(self) == (GraphImages { blocks: final(self).blocks, ..*old(self) }),
            find_block(final(self).blocks@, key@) == Some(memory),
            forall|other: BlockView|
                other != key@ ==> #[trigger] find_block(final(self).blocks@, other) == find_block(
                    old(self).blocks@,
                    other,
                ),
    {
        let ghost before = self.blocks@;
        self.blocks.push(CachedBlock { key, memory });
        assert(self.blocks@.drop_last() =~= before);
    }
}

/// Whether transients that are never alive together share their memory: they do
/// unless the setting reads `0`.
pub fn share_allocations(alias: Option<&str>) -> (share: bool)
    ensures
        share == !(alias is Some && trimmed(alias->0@) == "0"@),
{
    match alias {
        Some(value) => !same(trim(value), "0"),
        None => true,
    }
}

proof fn found_if_there(cache: Seq<CachedImage>, i: int)
    requires
        0 <= i < cache.len(),
    ensures
        find(cache, cache[i].key@) is Some,
    decreases cache.len(),
{
    if cache.last().key@ != cache[i].key@ {
        found_if_there(cache.drop_last(), i);
    }
}

proof fn found_is_there(cache: Seq<CachedImage>, key: KeyView) -> (i: int)
    requires
        find(cache, key) is Some,
    ensures
        0 <= i < cache.len(),
        cache[i].key@ == key,
        Some(cache[i].view) == find(cache, key),
    decreases cache.len(),
{
    if cache.last().key@ == key {
        cache.len() - 1
    } else {
        found_is_there(cache.drop_last(), key)
    }
}

/// **No two resources share an image.** Where keys and images pair off and no two
/// transients describe the same image, two copies that exist are one only if they
/// are the same transient in the same slot.
pub proof fn images_are_never_shared(
    graph: Graph,
    cache: Seq<CachedImage>,
    sharing: Sharing,
    a: int,
    a_slot: usize,
    b: int,
    b_slot: usize,
)
    requires
        pairs_off(cache),
        graph.keys_differ(sharing),
        0 <= a < graph.transients@.len(),
        0 <= b < graph.transients@.len(),
        find(cache, graph.key_of(a, a_slot, sharing)) is Some,
        find(cache, graph.key_of(a, a_slot, sharing)) == find(
            cache,
            graph.key_of(b, b_slot, sharing),
        ),
    ensures
        a == b,
        a_slot == b_slot,
{
    let first = graph.key_of(a, a_slot, sharing);
    let second = graph.key_of(b, b_slot, sharing);
    let i = found_is_there(cache, first);
    let j = found_is_there(cache, second);
    assert(i == j) by {
        if i < j {
            assert(cache[i].view != cache[j].view);
        } else if j < i {
            assert(cache[j].view != cache[i].view);
        }
    }
    assert(first == second);
    assert(a_slot == b_slot);
    if a < b {
        assert(graph.key_of(a, a_slot, sharing) != graph.key_of(b, a_slot, sharing));
    } else if b < a {
        assert(graph.key_of(b, a_slot, sharing) != graph.key_of(a, a_slot, sharing));
    }
}

/// **An image is what was asked for.** The view that was installed for a key is
/// described by that key, so the layers and levels a pass is told of are those the
/// image was created with.
pub proof fn images_are_what_was_asked_for(cache: Seq<CachedImage>, key: KeyView)
    requires
        pairs_off(cache),
        find(cache, key) is Some,
    ensures
        described(cache, find(cache, key)->0) == Some(key),
    decreases cache.len(),
{
    if cache.last().key@ != key {
        let rest = cache.drop_last();
        assert forall|a: int, b: int| 0 <= a < b < rest.len() implies (#[trigger] rest[a]).key@ != (
        #[trigger] rest[b]).key@ && rest[a].view != rest[b].view by {
            assert(cache[a].view != cache[b].view);
        }
        images_are_what_was_asked_for(rest, key);
        let i = found_is_there(rest, key);
        assert(cache[i].view != cache[cache.len() - 1].view);
    }
}

/// **Installing keeps the views right.** Where every slot's views are right for a
/// graph, they still are once an image that the graph asked for was taken in.
pub proof fn installing_keeps_the_views_right(
    graph: Graph,
    before: GraphImages,
    after: GraphImages,
    sharing: Sharing,
    t: int,
    slot: usize,
    view: u64,
)
    requires
        graph.wf(),
        graph.keys_differ(sharing),
        before.matches(graph, sharing),
        0 <= t < graph.transients@.len(),
        slot < before.views@.len(),
        before.installed(after, graph.request_of(t, slot, sharing), view),
    ensures
        after.matches(graph, sharing),
{
    assert(before.views.len() == before.views@.len());
    assert forall|s: int| 0 <= s < after.views@.len() implies graph.row_matches(
        (#[trigger] after.views@[s])@,
        after.cache@,
        sharing,
        s as usize,
        graph.transients@.len() as int,
    ) by {
        assert(before.views@[s]@.len() == graph.names@.len());
        if s == slot {
            installed_row_matches(graph, before, after, sharing, t, slot, view);
        } else {
            other_row_matches(graph, before, after, sharing, t, slot, view, s as usize);
        }
    }
}

proof fn installed_row_matches(
    graph: Graph,
    before: GraphImages,
    after: GraphImages,
    sharing: Sharing,
    t: int,
    slot: usize,
    view: u64,
)
    requires
        graph.wf(),
        graph.keys_differ(sharing),
        0 <= t < graph.transients@.len(),
        slot < before.views@.len(),
        before.installed(after, graph.request_of(t, slot, sharing), view),
        graph.row_matches(
            before.views@[slot as int]@,
            before.cache@,
            sharing,
            slot,
            graph.transients@.len() as int,
        ),
    ensures
        graph.row_matches(
            after.views@[slot as int]@,
            after.cache@,
            sharing,
            slot,
            graph.transients@.len() as int,
        ),
{
    let count = graph.transients@.len() as int;
    let old_row = before.views@[slot as int]@;
    let id = graph.transients@[t].id as int;
    let row = old_row.update(id, Some(view));
    assert(after.views@[slot as int]@ == row);
    assert forall|k: int| 0 <= k < count implies row[(#[trigger] graph.transients@[k]).id as int]
        == find(after.cache@, graph.key_of(k, slot, sharing)) by {
        if k < t {
            assert(graph.transients@[k].id != graph.transients@[t].id);
            assert(graph.key_of(k, slot, sharing) != graph.key_of(t, slot, sharing));
        } else if t < k {
            assert(graph.transients@[t].id != graph.transients@[k].id);
            assert(graph.key_of(t, slot, sharing) != graph.key_of(k, slot, sharing));
        }
    }
    assert forall|r: int|
        0 <= r < row.len() && (forall|k: int|
            0 <= k < count ==> (#[trigger] graph.transients@[k]).id != r) implies (
    #[trigger] row[r]) is None by {
        assert(graph.transients@[t].id != r);
        assert(old_row[r] is None);
    }
}

proof fn other_row_matches(
    graph: Graph,
    before: GraphImages,
    after: GraphImages,
    sharing: Sharing,
    t: int,
    slot: usize,
    view: u64,
    other: usize,
)
    requires
        slot != other,
        other < before.views@.len(),
        before.installed(after, graph.request_of(t, slot, sharing), view),
        graph.row_matches(
            before.views@[other as int]@,
            before.cache@,
            sharing,
            other,
            graph.transients@.len() as int,
        ),
    ensures
        graph.row_matches(
            after.views@[other as int]@,
            after.cache@,
            sharing,
            other,
            graph.transients@.len() as int,
        ),
{
    let row = before.views@[other as int]@;
    assert(after.views@[other as int] == before.views@[other as int]);
    assert forall|k: int| 0 <= k < graph.transients@.len() implies row[(
    #[trigger] graph.transients@[k]).id as int] == find(
        after.cache@,
        graph.key_of(k, other, sharing),
    ) by {
        assert(graph.key_of(k, other, sharing).slot == other);
        assert(graph.key_of(t, slot, sharing).slot == slot);
    }
}

/// **A frame whose images were created is whole.** Once every image that was
/// missing has been taken in, and none that was there is gone, every transient of
/// every slot has its view.
pub proof fn installed_frames_are_whole(
    graph: Graph,
    kept: Seq<CachedImage>,
    images: GraphImages,
    sharing: Sharing,
    t: int,
    slot: usize,
)
    requires
        images.matches(graph, sharing),
        forall|key: KeyView|
            find(kept, key) is Some ==> (#[trigger] find(images.cache@, key)) is Some,
        forall|i: int|
            0 <= i < graph.missing(kept, sharing, images.views@.len() as int).len() ==> find(
                images.cache@,
                (#[trigger] graph.missing(kept, sharing, images.views@.len() as int)[i]).key,
            ) is Some,
        0 <= t < graph.transients@.len(),
        slot < images.views@.len(),
    ensures
        images.views@[slot as int]@[graph.transients@[t].id as int] is Some,
{
    let slots = images.views@.len() as int;
    let key = graph.key_of(t, slot, sharing);
    let missing = graph.missing(kept, sharing, slots);
    if find(kept, key) is None {
        assert(images.views.len() == images.views@.len());
        missing_is_asked_for(graph, kept, sharing, slots, t, slot);
        let i = choose|i: int|
            0 <= i < missing.len() && missing[i] == graph.request_of(t, slot, sharing);
        assert(missing[i].key == key);
    }
    assert(find(images.cache@, key) is Some);
    assert(graph.row_matches(
        images.views@[slot as int]@,
        images.cache@,
        sharing,
        slot,
        graph.transients@.len() as int,
    ));
}

/// **Nothing missing is everything there.** Where the views are right and nothing
/// is missing, every transient of every slot has its view.
pub proof fn nothing_missing_is_everything_there(
    graph: Graph,
    images: GraphImages,
    sharing: Sharing,
    t: int,
    slot: usize,
)
    requires
        images.matches(graph, sharing),
        graph.missing(images.cache@, sharing, images.views@.len() as int).len() == 0,
        0 <= t < graph.transients@.len(),
        slot < images.views@.len(),
    ensures
        images.views@[slot as int]@[graph.transients@[t].id as int] is Some,
{
    installed_frames_are_whole(graph, images.cache@, images, sharing, t, slot);
}

proof fn missing_is_asked_for(
    graph: Graph,
    cache: Seq<CachedImage>,
    sharing: Sharing,
    slots: int,
    t: int,
    slot: usize,
)
    requires
        0 <= t < graph.transients@.len(),
        slot < slots <= usize::MAX,
        find(cache, graph.key_of(t, slot, sharing)) is None,
    ensures
        graph.missing(cache, sharing, slots).contains(graph.request_of(t, slot, sharing)),
    decreases slots,
{
    let request = graph.request_of(t, slot, sharing);
    let rest = graph.missing(cache, sharing, slots - 1);
    let count = graph.transients@.len() as int;
    let last = graph.missing_in(cache, sharing, (slots - 1) as usize, count);
    if slot == slots - 1 {
        missing_is_asked_for_in_slot(graph, cache, sharing, slot, count, t);
        let i = choose|i: int| 0 <= i < last.len() && last[i] == request;
        assert((rest + last)[rest.len() + i] == request);
    } else {
        missing_is_asked_for(graph, cache, sharing, slots - 1, t, slot);
        let i = choose|i: int| 0 <= i < rest.len() && rest[i] == request;
        assert((rest + last)[i] == request);
    }
}

proof fn missing_is_asked_for_in_slot(
    graph: Graph,
    cache: Seq<CachedImage>,
    sharing: Sharing,
    slot: usize,
    count: int,
    t: int,
)
    requires
        0 <= t < count,
        find(cache, graph.key_of(t, slot, sharing)) is None,
    ensures
        graph.missing_in(cache, sharing, slot, count).contains(
            graph.request_of(t, slot, sharing),
        ),
    decreases count,
{
    let request = graph.request_of(t, slot, sharing);
    let all = graph.missing_in(cache, sharing, slot, count);
    let rest = graph.missing_in(cache, sharing, slot, count - 1);
    if t == count - 1 {
        assert(all[rest.len() as int] == request);
    } else {
        missing_is_asked_for_in_slot(graph, cache, sharing, slot, count - 1, t);
        let i = choose|i: int| 0 <= i < rest.len() && rest[i] == request;
        assert(all[i] == request);
    }
}

/// **A toggle back costs nothing.** A graph whose images all exist already asks
/// for none to be created.
pub proof fn nothing_missing_is_created(
    graph: Graph,
    cache: Seq<CachedImage>,
    sharing: Sharing,
    slots: int,
)
    requires
        0 <= slots <= usize::MAX,
        forall|t: int, slot: usize|
            0 <= t < graph.transients@.len() && slot < slots ==> find(
                cache,
                #[trigger] graph.key_of(t, slot, sharing),
            ) is Some,
    ensures
        graph.missing(cache, sharing, slots).len() == 0,
    decreases slots,
{
    if slots > 0 {
        nothing_missing_is_created(graph, cache, sharing, slots - 1);
        nothing_missing_in_slot(
            graph,
            cache,
            sharing,
            (slots - 1) as usize,
            graph.transients@.len() as int,
        );
    }
}

proof fn nothing_missing_in_slot(
    graph: Graph,
    cache: Seq<CachedImage>,
    sharing: Sharing,
    slot: usize,
    count: int,
)
    requires
        count <= graph.transients@.len(),
        forall|t: int|
            0 <= t < count ==> find(cache, #[trigger] graph.key_of(t, slot, sharing)) is Some,
    ensures
        graph.missing_in(cache, sharing, slot, count).len() == 0,
    decreases count,
{
    if count > 0 {
        nothing_missing_in_slot(graph, cache, sharing, slot, count - 1);
        assert(find(cache, graph.key_of(count - 1, slot, sharing)) is Some);
    }
}

/// **An image is created as it was declared.** Its key has the declaration's own
/// fields under the resource's own name; an image that is no volume is one texel
/// deep, and one that is no array has one layer. Both queues own it only where there
/// are two, and it has a group only where groups are shared.
pub proof fn images_are_as_declared(graph: Graph, t: int, slot: usize, sharing: Sharing)
    ensures
        ({
            let image = graph.transients@[t];
            let request = graph.request_of(t, slot, sharing);
            let key = request.key;
            &&& request.id == image.id
            &&& key == graph.key_of(t, slot, sharing)
            &&& key.name == graph.names@[image.id as int]@
            &&& key.slot == slot
            &&& key.format == image.format
            &&& key.width == image.width
            &&& key.height == image.height
            &&& key.usage == image.usage
            &&& key.samples == image.samples
            &&& key.memoryless == image.memoryless
            &&& key.concurrent <==> image.concurrent && sharing.families
            &&& image.depth is None ==> key.depth == 1
            &&& image.depth is Some ==> key.depth == image.depth->0
            &&& image.array_layers is None ==> key.array_layers == 1
            &&& image.array_layers is Some ==> key.array_layers == image.array_layers->0
            &&& key.alias is Some <==> image.alias is Some && sharing.aliases
            &&& key.alias is Some ==> key.alias->0 == graph.group_name(image.alias->0 as int)
        }),
{
}

/// **A view sees what was declared.** A volume is seen as one, an array as one
/// however few its layers, and everything else flat. The view of a pyramid cannot be
/// stored to and otherwise claims all of the image's usage; only an image that is
/// allocated alone asks for memory that is never backed.
pub proof fn views_see_what_was_declared(graph: Graph, t: int, slot: usize, sharing: Sharing)
    requires
        graph.wf(),
        0 <= t < graph.transients@.len(),
    ensures
        ({
            let image = graph.transients@[t];
            let request = graph.request_of(t, slot, sharing);
            let several = request.key.mip_levels > 1;
            &&& request.view_type is Dim3d <==> image.depth is Some
            &&& request.view_type is Dim2dArray <==> image.array_layers is Some
            &&& several ==> request.view_usage & STORAGE == 0 && request.view_usage | (image.usage
                & STORAGE) == image.usage
            &&& !several ==> request.view_usage == image.usage
            &&& request.lazy ==> image.memoryless && request.key.alias is None
            &&& image.memoryless && (image.alias is None || !sharing.aliases) ==> request.lazy
        }),
{
    let usage = graph.transients@[t].usage;
    let storage = STORAGE;
    assert((usage & !storage) & storage == 0 && (usage & !storage) | (usage & storage) == usage)
        by (bit_vector);
}

/// **An image has the levels it was declared with, as far as they go.** It never has
/// more than its larger side can be halved to, and never fewer than it could have.
pub proof fn levels_go_as_far_as_they_can(graph: Graph, t: int, slot: usize, sharing: Sharing)
    ensures
        ({
            let image = graph.transients@[t];
            let levels = graph.key_of(t, slot, sharing).mip_levels as int;
            let most = chain(larger(image.width, image.height) as nat) as int;
            &&& levels <= image.mip_levels
            &&& levels <= most
            &&& levels == image.mip_levels || levels == most
        }),
{
    let image = graph.transients@[t];
    let most = chain(larger(image.width, image.height) as nat);
    if image.mip_levels >= most {
        assert(most <= u32::MAX);
    }
}

/// **Only what is missing is asked for, and each in its own slot.** A request that
/// stands in the list is some transient's in some slot of those there are, and no
/// image exists for it.
pub proof fn only_what_is_missing_is_asked_for(
    graph: Graph,
    cache: Seq<CachedImage>,
    sharing: Sharing,
    slots: int,
    i: int,
) -> (of: (int, usize))
    requires
        0 <= slots <= usize::MAX,
        0 <= i < graph.missing(cache, sharing, slots).len(),
    ensures
        0 <= of.0 < graph.transients@.len(),
        of.1 < slots,
        graph.missing(cache, sharing, slots)[i] == graph.request_of(of.0, of.1, sharing),
        find(cache, graph.key_of(of.0, of.1, sharing)) is None,
    decreases slots,
{
    let rest = graph.missing(cache, sharing, slots - 1);
    let count = graph.transients@.len() as int;
    let last = (slots - 1) as usize;
    if i < rest.len() {
        only_what_is_missing_is_asked_for(graph, cache, sharing, slots - 1, i)
    } else {
        (asked_for_in_slot(graph, cache, sharing, last, count, i - rest.len()), last)
    }
}

proof fn asked_for_in_slot(
    graph: Graph,
    cache: Seq<CachedImage>,
    sharing: Sharing,
    slot: usize,
    count: int,
    i: int,
) -> (t: int)
    requires
        0 <= i < graph.missing_in(cache, sharing, slot, count).len(),
    ensures
        0 <= t < count,
        graph.missing_in(cache, sharing, slot, count)[i] == graph.request_of(t, slot, sharing),
        find(cache, graph.key_of(t, slot, sharing)) is None,
    decreases count,
{
    let rest = graph.missing_in(cache, sharing, slot, count - 1);
    if i < rest.len() {
        asked_for_in_slot(graph, cache, sharing, slot, count - 1, i)
    } else {
        count - 1
    }
}

/// **A group goes by its members' names.** Alone a member names it; with others
/// before it, its name stands behind theirs and a plus.
pub proof fn groups_go_by_their_members(graph: Graph, shorter: Graph, group: int)
    requires
        0 <= group < graph.alias_groups@.len(),
        group < shorter.alias_groups@.len(),
        graph.alias_groups@[group]@.len() > 0,
        shorter.alias_groups@[group]@ == graph.alias_groups@[group]@.drop_last(),
        shorter.names == graph.names,
    ensures
        ({
            let last = graph.names@[graph.alias_groups@[group]@.last() as int]@;
            graph.group_name(group) == if graph.alias_groups@[group]@.len() == 1 {
                last
            } else {
                shorter.group_name(group) + seq!['+'] + last
            }
        }),
{
    reveal_strlit("+");
    assert("+"@ =~= seq!['+']);
    let of = |id: usize| graph.names@[id as int]@;
    let members = graph.alias_groups@[group]@;
    assert(members.map_values(of).drop_last() =~= members.drop_last().map_values(of));
    assert(members.map_values(of).last() == of(members.last()));
    assert(shorter.alias_groups@[group]@.map_values(|id: usize| shorter.names@[id as int]@)
        =~= members.drop_last().map_values(of));
}

/// **A block is found by all that it is.** What is handed out is some block's memory,
/// and that block is this group's, in this slot, of this size and type of memory; and
/// where such a block exists, one is handed out.
pub proof fn blocks_are_found_by_what_they_are(
    blocks: Seq<CachedBlock>,
    group: Seq<char>,
    slot: usize,
    size: u64,
    memory_type_index: u32,
)
    ensures
        ({
            let found = find_block(blocks, (BlockView { group, slot, size, memory_type_index }));
            let fits = |i: int|
                {
                    &&& 0 <= i < blocks.len()
                    &&& blocks[i].key.group@ == group
                    &&& blocks[i].key.slot == slot
                    &&& blocks[i].key.size == size
                    &&& blocks[i].key.memory_type_index == memory_type_index
                };
            &&& found is Some ==> exists|i: int| #[trigger] fits(i) && blocks[i].memory == found->0
            &&& found is None ==> forall|i: int| !(#[trigger] fits(i))
        }),
    decreases blocks.len(),
{
    let key = BlockView { group, slot, size, memory_type_index };
    let found = find_block(blocks, key);
    let fits = |i: int|
        {
            &&& 0 <= i < blocks.len()
            &&& blocks[i].key.group@ == group
            &&& blocks[i].key.slot == slot
            &&& blocks[i].key.size == size
            &&& blocks[i].key.memory_type_index == memory_type_index
        };
    if blocks.len() > 0 {
        let rest = blocks.drop_last();
        let end = blocks.len() - 1;
        blocks_are_found_by_what_they_are(rest, group, slot, size, memory_type_index);
        if blocks.last().key@ == key {
            assert(fits(end));
        } else {
            let fits_rest = |i: int|
                {
                    &&& 0 <= i < rest.len()
                    &&& rest[i].key.group@ == group
                    &&& rest[i].key.slot == slot
                    &&& rest[i].key.size == size
                    &&& rest[i].key.memory_type_index == memory_type_index
                };
            if found is Some {
                let i = choose|i: int| #[trigger] fits_rest(i) && rest[i].memory == found->0;
                assert(fits(i) && blocks[i].memory == found->0);
            } else {
                assert forall|i: int| !(#[trigger] fits(i)) by {
                    if fits(i) {
                        if i == end {
                            assert(blocks.last().key@ =~= key);
                        } else {
                            assert(fits_rest(i));
                        }
                    }
                }
            }
        }
    }
}

/// **A change of extent keeps nothing and nothing else drops an image.**
pub proof fn images_are_kept_with_the_extent(images: GraphImages, extent: [u32; 2])
    ensures
        images.extent@ == extent@ ==> images.kept(extent) == images.cache@,
        images.extent@ != extent@ ==> images.kept(extent).len() == 0,
{
}

} // verus!
