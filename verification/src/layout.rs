//! The binding layout that every pyramid dispatch is bound against.
//!
//! A layout is a list of slots, numbered from zero in the order in which a
//! kernel declares them, all visible to the compute stage only:
//!
//! * slot 0 is the image that is read: a read-only depth image;
//! * then come the images that are written: storage images of one
//!   floating-point channel, write-only but for one. An aggregated kernel
//!   reads back what it wrote through slot [`READ_WRITE_BINDING`] to go on
//!   from there, so in an aggregated layout that slot is read-write;
//! * a non-filtering sampler closes the list when the kernel samples the
//!   image it reads instead of loading from it.
//!
//! How many images are written depends on the strategy. An aggregated
//! dispatch writes every level below the source at once, so its layout has one
//! image slot per level. An iterative dispatch writes one level, so its layout
//! has two image slots whatever the number of levels.

use vstd::prelude::*;

verus! {

/// How the levels of a pyramid are produced.
#[derive(Clone, Copy, Debug, PartialEq, Eq, Structural)]
pub enum Strategy {
    /// One dispatch per view reads the source and writes every other level.
    Aggregated,
    /// One dispatch per pair of neighbouring levels reads the upper one and
    /// writes the lower one.
    Iterative,
}

/// How a kernel may touch an image.
#[derive(Clone, Copy, Debug, PartialEq, Eq, Structural)]
pub enum AccessMode {
    ReadOnly,
    WriteOnly,
    ReadWrite,
}

/// The slot of an aggregated layout through which the kernel both writes and
/// reads.
pub const READ_WRITE_BINDING: u32 = 6;

/// A stage of the GPU that a slot can be visible to.
#[derive(Clone, Copy, Debug, PartialEq, Eq, Structural)]
pub enum ShaderStage {
    Vertex,
    Fragment,
    Compute,
}

/// What a slot holds.
#[derive(Clone, Copy, Debug, PartialEq, Eq, Structural)]
pub enum SlotKind {
    /// The depth image that a dispatch reads.
    DepthImage,
    /// A storage image of one floating-point channel that a dispatch
    /// writes, with the access that the kernel has to it.
    StorageImage(AccessMode),
    /// A non-filtering sampler.
    Sampler,
}

/// The format of the pixels of an image.
#[derive(Clone, Copy, Debug, PartialEq, Eq, Structural)]
pub enum ImageFormat {
    /// The format of a depth buffer.
    Depth,
    /// One channel of 32-bit floating point.
    R32Float,
}

impl SlotKind {
    /// The format of the image that the slot holds; a sampler has none.
    pub open spec fn format_spec(self) -> Option<ImageFormat> {
        match self {
            SlotKind::DepthImage => Some(ImageFormat::Depth),
            SlotKind::StorageImage(_) => Some(ImageFormat::R32Float),
            SlotKind::Sampler => None,
        }
    }

    /// The format of the image that the slot holds; a sampler has none.
    #[verifier::when_used_as_spec(format_spec)]
    pub fn format(self) -> (r: Option<ImageFormat>)
        ensures
            r == self.format_spec(),
    {
        match self {
            SlotKind::DepthImage => Some(ImageFormat::Depth),
            SlotKind::StorageImage(_) => Some(ImageFormat::R32Float),
            SlotKind::Sampler => None,
        }
    }

    /// The access that a kernel has to what the slot holds; a sampler has
    /// none.
    pub open spec fn access_spec(self) -> Option<AccessMode> {
        match self {
            SlotKind::DepthImage => Some(AccessMode::ReadOnly),
            SlotKind::StorageImage(access) => Some(access),
            SlotKind::Sampler => None,
        }
    }

    /// The access that a kernel has to what the slot holds; a sampler has
    /// none.
    #[verifier::when_used_as_spec(access_spec)]
    pub fn access(self) -> (r: Option<AccessMode>)
        ensures
            r == self.access_spec(),
    {
        match self {
            SlotKind::DepthImage => Some(AccessMode::ReadOnly),
            SlotKind::StorageImage(access) => Some(access),
            SlotKind::Sampler => None,
        }
    }
}

/// One slot of a layout.
#[derive(Clone, Copy, Debug, PartialEq, Eq, Structural)]
pub struct BindingSlot {
    /// The index under which a kernel finds the slot.
    pub binding: u32,
    /// The one stage that sees the slot.
    pub visibility: ShaderStage,
    pub kind: SlotKind,
}

/// Why a layout cannot be had. Both are faults of the configuration, found
/// once when the subsystem starts.
#[derive(Clone, Copy, Debug, PartialEq, Eq, Structural)]
pub enum ConfigError {
    /// A pyramid has at least one level.
    NoLevels,
    /// The layout needs `required` slots and one binding group takes `limit`.
    TooManyBindings { required: u64, limit: u32 },
}

/// The number of images that one dispatch writes.
pub open spec fn write_slot_count(strategy: Strategy, level_count: int) -> int {
    match strategy {
        Strategy::Aggregated => level_count - 1,
        Strategy::Iterative => 1,
    }
}

/// The number of image slots of a layout: the one read and those written.
pub open spec fn image_slot_count(strategy: Strategy, level_count: int) -> int {
    1 + write_slot_count(strategy, level_count)
}

/// The number of slots of a layout.
pub open spec fn slot_count(strategy: Strategy, level_count: int, sampler: bool) -> int {
    image_slot_count(strategy, level_count) + if sampler {
        1int
    } else {
        0int
    }
}

/// The access that a kernel has to the storage image in slot `i`:
/// read-write through slot [`READ_WRITE_BINDING`] of an aggregated layout,
/// write-only through every other.
pub open spec fn storage_access(strategy: Strategy, i: int) -> AccessMode {
    if strategy == Strategy::Aggregated && i == READ_WRITE_BINDING {
        AccessMode::ReadWrite
    } else {
        AccessMode::WriteOnly
    }
}

/// Slot `i` of a layout.
pub open spec fn slot_at(strategy: Strategy, level_count: int, i: int) -> BindingSlot {
    BindingSlot {
        binding: i as u32,
        visibility: ShaderStage::Compute,
        kind: if i == 0 {
            SlotKind::DepthImage
        } else if i <= write_slot_count(strategy, level_count) {
            SlotKind::StorageImage(storage_access(strategy, i))
        } else {
            SlotKind::Sampler
        },
    }
}

/// The slots of the layout for pyramids of `level_count` levels.
pub open spec fn layout_slots(strategy: Strategy, level_count: int, sampler: bool) -> Seq<
    BindingSlot,
> {
    Seq::new(
        slot_count(strategy, level_count, sampler) as nat,
        |i: int| slot_at(strategy, level_count, i),
    )
}

/// The bindings that a pyramid dispatch needs, fixed once and used as they
/// are for every binding set.
#[derive(Debug)]
pub struct ResourceBindingLayout {
    strategy: Strategy,
    level_count: u32,
    sampler: bool,
    slots: Vec<BindingSlot>,
}

impl View for ResourceBindingLayout {
    type V = Seq<BindingSlot>;

    closed spec fn view(&self) -> Seq<BindingSlot> {
        self.slots@
    }
}

impl ResourceBindingLayout {
    /// The strategy that the layout serves.
    pub closed spec fn spec_strategy(&self) -> Strategy {
        self.strategy
    }

    /// The number of levels of the pyramids that the layout serves.
    pub closed spec fn spec_level_count(&self) -> u32 {
        self.level_count
    }

    /// Whether the layout closes with a sampler.
    pub closed spec fn spec_has_sampler(&self) -> bool {
        self.sampler
    }

    /// A layout serves pyramids of at least one level, and its slots are
    /// those that its strategy, its number of levels and its sampler call
    /// for. Every layout that this library hands out is well formed.
    pub open spec fn wf(&self) -> bool {
        &&& self.spec_level_count() >= 1
        &&& self@ == layout_slots(
            self.spec_strategy(),
            self.spec_level_count() as int,
            self.spec_has_sampler(),
        )
    }

    #[verifier::type_invariant]
    spec fn inv(&self) -> bool {
        self.wf()
    }

    /// The layout for pyramids of `level_count` levels under `strategy`,
    /// with a closing sampler slot if `sampler` is set, on a device whose
    /// binding groups take `binding_limit` slots.
    ///
    /// Fails with [`ConfigError::NoLevels`] for `level_count == 0`, and
    /// otherwise with [`ConfigError::TooManyBindings`] when the layout would
    /// have more than `binding_limit` slots.
    pub fn new(strategy: Strategy, level_count: u32, sampler: bool, binding_limit: u32) -> (r:
        Result<Self, ConfigError>)
        ensures
            level_count == 0 ==> r == Err::<Self, ConfigError>(ConfigError::NoLevels),
            level_count > 0 && slot_count(strategy, level_count as int, sampler) > binding_limit
                ==> r == Err::<Self, ConfigError>(
                (ConfigError::TooManyBindings {
                    required: slot_count(strategy, level_count as int, sampler) as u64,
                    limit: binding_limit,
                }),
            ),
            level_count > 0 && slot_count(strategy, level_count as int, sampler) <= binding_limit
                ==> r is Ok,
            r matches Ok(layout) ==> {
                &&& layout.wf()
                &&& layout.spec_strategy() == strategy
                &&& layout.spec_level_count() == level_count
                &&& layout.spec_has_sampler() == sampler
                &&& layout@ == layout_slots(strategy, level_count as int, sampler)
            },
    {
        if level_count == 0 {
            return Err(ConfigError::NoLevels);
        }
        let writes: u32 = match strategy {
            Strategy::Aggregated => level_count - 1,
            Strategy::Iterative => 1,
        };
        let extra: u64 = if sampler {
            2
        } else {
            1
        };
        let required: u64 = writes as u64 + extra;
        if required > binding_limit as u64 {
            return Err(ConfigError::TooManyBindings { required, limit: binding_limit });
        }
        let count: u32 = required as u32;
        let mut slots: Vec<BindingSlot> = Vec::new();
        let mut i: u32 = 0;
        while i < count
            invariant
                i <= count,
                writes == write_slot_count(strategy, level_count as int),
                slots@.len() == i,
                forall|j: int|
                    0 <= j < i ==> #[trigger] slots@[j] == slot_at(strategy, level_count as int, j),
            decreases count - i,
        {
            let kind = if i == 0 {
                SlotKind::DepthImage
            } else if i <= writes {
                match strategy {
                    Strategy::Aggregated => {
                        if i == READ_WRITE_BINDING {
                            SlotKind::StorageImage(AccessMode::ReadWrite)
                        } else {
                            SlotKind::StorageImage(AccessMode::WriteOnly)
                        }
                    },
                    Strategy::Iterative => SlotKind::StorageImage(AccessMode::WriteOnly),
                }
            } else {
                SlotKind::Sampler
            };
            slots.push(BindingSlot { binding: i, visibility: ShaderStage::Compute, kind });
            i = i + 1;
        }
        assert(slots@ =~= layout_slots(strategy, level_count as int, sampler));
        Ok(ResourceBindingLayout { strategy, level_count, sampler, slots })
    }

    /// The strategy that the layout serves.
    #[verifier::when_used_as_spec(spec_strategy)]
    pub fn strategy(&self) -> (r: Strategy)
        ensures
            r == self.spec_strategy(),
    {
        self.strategy
    }

    /// The number of levels of the pyramids that the layout serves.
    #[verifier::when_used_as_spec(spec_level_count)]
    pub fn level_count(&self) -> (r: u32)
        ensures
            r == self.spec_level_count(),
            r >= 1,
    {
        proof {
            use_type_invariant(self);
        }
        self.level_count
    }

    /// Whether the layout closes with a sampler.
    #[verifier::when_used_as_spec(spec_has_sampler)]
    pub fn has_sampler(&self) -> (r: bool)
        ensures
            r == self.spec_has_sampler(),
    {
        self.sampler
    }

    /// The slots, in the order of their indices.
    pub fn slots(&self) -> (r: &Vec<BindingSlot>)
        ensures
            r@ == self@,
            self.wf(),
    {
        proof {
            use_type_invariant(self);
        }
        &self.slots
    }

    /// The number of slots.
    pub fn slot_count(&self) -> (r: usize)
        ensures
            r == self@.len(),
            r == slot_count(self.strategy(), self.level_count() as int, self.has_sampler()),
    {
        proof {
            use_type_invariant(self);
        }
        self.slots.len()
    }

    /// The number of images that a dispatch writes through this layout.
    pub fn write_slot_count(&self) -> (r: u32)
        ensures
            r == write_slot_count(self.strategy(), self.level_count() as int),
    {
        proof {
            use_type_invariant(self);
        }
        match self.strategy {
            Strategy::Aggregated => self.level_count - 1,
            Strategy::Iterative => 1,
        }
    }
}

/// A well-formed layout numbers its slots from zero without a gap and shows
/// every one of them to the compute stage alone. It reads through slot 0.
/// The image slots after it are storage images: read-write in slot
/// [`READ_WRITE_BINDING`] of an aggregated layout, where the layout has that
/// many, and write-only in every other. A sampler, if there is one, comes
/// last.
pub proof fn lemma_layout_slots(layout: ResourceBindingLayout, i: int)
    requires
        layout.wf(),
        0 <= i < layout@.len(),
    ensures
        layout@[i].binding == i,
        layout@[i].visibility == ShaderStage::Compute,
        i == 0 <==> layout@[i].kind == SlotKind::DepthImage,
        i == 0 <==> layout@[i].kind.access() == Some(AccessMode::ReadOnly),
        1 <= i <= write_slot_count(layout.strategy(), layout.level_count() as int)
            <==> layout@[i].kind is StorageImage,
        layout@[i].kind.access() == Some(AccessMode::ReadWrite) <==> {
            &&& layout.strategy() == Strategy::Aggregated
            &&& i == READ_WRITE_BINDING
            &&& i <= write_slot_count(layout.strategy(), layout.level_count() as int)
        },
        layout@[i].kind.access() == Some(AccessMode::WriteOnly) <==> {
            &&& 1 <= i <= write_slot_count(layout.strategy(), layout.level_count() as int)
            &&& !(layout.strategy() == Strategy::Aggregated && i == READ_WRITE_BINDING)
        },
        layout@[i].kind == SlotKind::Sampler <==> layout.has_sampler() && i == layout@.len() - 1,
{
}

/// An aggregated layout without a sampler has as many slots as the pyramid
/// has levels, and with a sampler one more; among them are as many image
/// slots as levels in either case.
pub proof fn lemma_aggregated_binding_count(layout: ResourceBindingLayout)
    requires
        layout.wf(),
        layout.strategy() == Strategy::Aggregated,
    ensures
        image_slot_count(layout.strategy(), layout.level_count() as int) == layout.level_count(),
        !layout.has_sampler() ==> layout@.len() == layout.level_count(),
        layout.has_sampler() ==> layout@.len() == layout.level_count() + 1,
{
}

/// An iterative layout has two image slots whatever the number of levels:
/// one read, one written. Without a sampler these are all its slots.
pub proof fn lemma_iterative_binding_count(layout: ResourceBindingLayout)
    requires
        layout.wf(),
        layout.strategy() == Strategy::Iterative,
    ensures
        image_slot_count(layout.strategy(), layout.level_count() as int) == 2,
        !layout.has_sampler() ==> layout@.len() == 2,
        layout.has_sampler() ==> layout@.len() == 3,
{
}

} // verus!
