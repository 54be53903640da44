//! Choices made about a physical device from what it reports: which queue families to use,
//! which memory type to allocate from, and whether the device can render at all.
use vstd::prelude::*;
use crate::truncate_optional_usize_to_optional_u32;

verus! {

/// The native queue capability flags.
pub const QUEUE_GRAPHICS: u32 = 1;
pub const QUEUE_COMPUTE: u32 = 2;
pub const QUEUE_TRANSFER: u32 = 4;

/// What a device reports of one of its queue families.
#[derive(Clone, Copy, Debug, PartialEq, Eq, Structural)]
pub struct QueueFamily {
    pub queue_flags: u32,
    pub queue_count: u32,
}

/// The roles a queue family is chosen for.
#[derive(Clone, Copy, Debug, PartialEq, Eq, Structural)]
pub enum QueueRole {
    /// Graphics without compute.
    Graphics,
    /// Graphics and compute.
    GraphicsCompute,
    /// Compute without graphics.
    Compute,
    /// Transfer without graphics.
    Transfer,
}

pub open spec fn has_flag(flags: u32, flag: u32) -> bool {
    flags & flag == flag
}

/// Whether `family` has queues and suits `role`.
pub open spec fn suits(family: QueueFamily, role: QueueRole) -> bool {
    family.queue_count > 0 && match role {
        QueueRole::Graphics => has_flag(family.queue_flags, QUEUE_GRAPHICS) && !has_flag(
            family.queue_flags,
            QUEUE_COMPUTE,
        ),
        QueueRole::GraphicsCompute => has_flag(family.queue_flags, QUEUE_GRAPHICS) && has_flag(
            family.queue_flags,
            QUEUE_COMPUTE,
        ),
        QueueRole::Compute => has_flag(family.queue_flags, QUEUE_COMPUTE) && !has_flag(
            family.queue_flags,
            QUEUE_GRAPHICS,
        ),
        QueueRole::Transfer => has_flag(family.queue_flags, QUEUE_TRANSFER) && !has_flag(
            family.queue_flags,
            QUEUE_GRAPHICS,
        ),
    }
}

/// The position of the first family of `families` that suits `role`, if any.
pub open spec fn first_suiting(families: Seq<QueueFamily>, role: QueueRole) -> Option<int>
    decreases families.len(),
{
    if families.len() == 0 {
        None
    } else {
        match first_suiting(families.drop_last(), role) {
            Some(i) => Some(i),
            None => if suits(families.last(), role) {
                Some(families.len() - 1)
            } else {
                None
            },
        }
    }
}

pub open spec fn narrowed(i: Option<int>) -> Option<u32> {
    match i {
        Some(k) => Some(k as u32),
        None => None,
    }
}

pub open spec fn narrowed_index(i: Option<usize>) -> Option<u32> {
    match i {
        Some(k) => Some(k as u32),
        None => None,
    }
}

fn suits_role(family: &QueueFamily, role: QueueRole) -> (r: bool)
    ensures
        r == suits(*family, role),
{
    let f = family.queue_flags;
    let graphics = f & QUEUE_GRAPHICS == QUEUE_GRAPHICS;
    let compute = f & QUEUE_COMPUTE == QUEUE_COMPUTE;
    let transfer = f & QUEUE_TRANSFER == QUEUE_TRANSFER;
    family.queue_count > 0 && match role {
        QueueRole::Graphics => graphics && !compute,
        QueueRole::GraphicsCompute => graphics && compute,
        QueueRole::Compute => compute && !graphics,
        QueueRole::Transfer => transfer && !graphics,
    }
}

/// The position of the first family that suits `role`.
pub fn position_of_role(families: &Vec<QueueFamily>, role: QueueRole) -> (r: Option<usize>)
    ensures
        r.is_none() <==> first_suiting(families@, role).is_none(),
        r.is_some() ==> first_suiting(families@, role) == Some(r.unwrap() as int),
{
    let mut i: usize = 0;
    while i < families.len()
        invariant
            i <= families@.len(),
            first_suiting(families@.take(i as int), role).is_none(),
        decreases families@.len() - i,
    {
        proof {
            assert(families@.take(i as int + 1).drop_last() =~= families@.take(i as int));
        }
        if suits_role(&families[i], role) {
            proof {
                lemma_first_suiting_prefix(families@, i as int + 1, role);
            }
            return Some(i);
        }
        i = i + 1;
    }
    assert(families@.take(i as int) =~= families@);
    None
}

proof fn lemma_first_suiting_prefix(families: Seq<QueueFamily>, k: int, role: QueueRole)
    requires
        0 <= k <= families.len(),
        first_suiting(families.take(k), role).is_some(),
    ensures
        first_suiting(families, role) == first_suiting(families.take(k), role),
    decreases families.len(),
{
    if k < families.len() {
        assert(families.drop_last().take(k) =~= families.take(k));
        lemma_first_suiting_prefix(families.drop_last(), k, role);
    } else {
        assert(families.take(k) =~= families);
    }
}

/// The queue families chosen for each role.
#[derive(Clone, Copy, Debug, PartialEq, Eq, Structural)]
pub struct QueueFamilyIndices {
    pub graphics_: Option<u32>,
    pub graphics_compute_: Option<u32>,
    pub compute_: Option<u32>,
    pub transfer_: Option<u32>,
}

/// A request for one queue of a family.
#[derive(Clone, Copy, Debug, PartialEq, Eq, Structural)]
pub struct QueueCreateInfo {
    pub queue_family_index: u32,
    pub queue_count: u32,
}

pub open spec fn one_queue(family: Option<u32>) -> Seq<QueueCreateInfo> {
    match family {
        Some(f) => seq![QueueCreateInfo { queue_family_index: f, queue_count: 1 }],
        None => Seq::empty(),
    }
}

fn push_one_queue(out: &mut Vec<QueueCreateInfo>, family: Option<u32>)
    ensures
        final(out)@ == old(out)@ + one_queue(family),
{
    match family {
        Some(f) => {
            out.push(QueueCreateInfo { queue_family_index: f, queue_count: 1 });
        },
        None => {},
    }
    assert(final(out)@ =~= old(out)@ + one_queue(family));
}

impl QueueFamilyIndices {
    /// The chosen positions, narrowed to the width the graphics API takes.
    pub fn new(
        graphics: Option<usize>,
        graphics_compute: Option<usize>,
        compute: Option<usize>,
        transfer: Option<usize>,
    ) -> (r: QueueFamilyIndices)
        ensures
            r.graphics_ == narrowed_index(graphics),
            r.graphics_compute_ == narrowed_index(graphics_compute),
            r.compute_ == narrowed_index(compute),
            r.transfer_ == narrowed_index(transfer),
    {
        QueueFamilyIndices {
            graphics_: truncate_optional_usize_to_optional_u32(graphics),
            graphics_compute_: truncate_optional_usize_to_optional_u32(graphics_compute),
            compute_: truncate_optional_usize_to_optional_u32(compute),
            transfer_: truncate_optional_usize_to_optional_u32(transfer),
        }
    }

    /// For each role that has a family, in the order graphics, graphics and compute,
    /// compute, transfer: a request for one queue of that family.
    pub fn make_device_queue_create_infos(&self) -> (r: Vec<QueueCreateInfo>)
        ensures
            r@ == one_queue(self.graphics_) + one_queue(self.graphics_compute_) + one_queue(
                self.compute_,
            ) + one_queue(self.transfer_),
    {
        let mut r: Vec<QueueCreateInfo> = Vec::new();
        push_one_queue(&mut r, self.graphics_);
        push_one_queue(&mut r, self.graphics_compute_);
        push_one_queue(&mut r, self.compute_);
        push_one_queue(&mut r, self.transfer_);
        assert(r@ =~= one_queue(self.graphics_) + one_queue(self.graphics_compute_) + one_queue(
            self.compute_,
        ) + one_queue(self.transfer_));
        r
    }
}

/// For each role, the first family that suits it.
pub fn select_queue_family_indices(families: &Vec<QueueFamily>) -> (r: QueueFamilyIndices)
    ensures
        r.graphics_ == narrowed(first_suiting(families@, QueueRole::Graphics)),
        r.graphics_compute_ == narrowed(first_suiting(families@, QueueRole::GraphicsCompute)),
        r.compute_ == narrowed(first_suiting(families@, QueueRole::Compute)),
        r.transfer_ == narrowed(first_suiting(families@, QueueRole::Transfer)),
{
    let transfer = position_of_role(families, QueueRole::Transfer);
    let compute = position_of_role(families, QueueRole::Compute);
    let graphics = position_of_role(families, QueueRole::Graphics);
    let graphics_compute = position_of_role(families, QueueRole::GraphicsCompute);
    QueueFamilyIndices::new(graphics, graphics_compute, compute, transfer)
}

/// Whether memory type `i` is allowed by `type_bitmask` and has every property of `required`.
pub open spec fn memory_type_fits(type_bitmask: u32, flags: u32, required: u32, i: int) -> bool {
    &&& type_bitmask & (1u32 << (i as u32)) > 0
    &&& flags & required == required
}

/// The first memory type that `type_bitmask` allows and that has every property of
/// `required`; `memory_type_flags` holds the properties of each memory type.
pub fn get_suitable_memory_type_index(
    type_bitmask: u32,
    memory_type_flags: &Vec<u32>,
    required: u32,
) -> (r: Option<u32>)
    requires
        memory_type_flags@.len() <= 32,
    ensures
        r.is_some() ==> r.unwrap() < memory_type_flags@.len() && memory_type_fits(
            type_bitmask,
            memory_type_flags@[r.unwrap() as int],
            required,
            r.unwrap() as int,
        ),
        forall|j: int|
            0 <= j < memory_type_flags@.len() && (r.is_none() || j < r.unwrap())
                ==> !memory_type_fits(type_bitmask, #[trigger] memory_type_flags@[j], required, j),
{
    let mut i: usize = 0;
    while i < memory_type_flags.len()
        invariant
            i <= memory_type_flags@.len() <= 32,
            forall|j: int|
                0 <= j < i ==> !memory_type_fits(
                    type_bitmask,
                    #[trigger] memory_type_flags@[j],
                    required,
                    j,
                ),
        decreases memory_type_flags@.len() - i,
    {
        let bit = 1u32 << (i as u32);
        if type_bitmask & bit > 0 && memory_type_flags[i] & required == required {
            return Some(i as u32);
        }
        i = i + 1;
    }
    None
}

/// Whether a device of the given native type is a GPU: discrete, integrated or virtual.
pub fn is_gpu(device_type: i32) -> (r: bool)
    ensures
        r == (device_type == 1 || device_type == 2 || device_type == 3),
{
    device_type == 1 || device_type == 2 || device_type == 3
}

/// Whether some family supports graphics.
pub fn supports_graphics_and_presentation(families: &Vec<QueueFamily>) -> (r: bool)
    ensures
        r == exists|i: int|
            0 <= i < families@.len() && has_flag(#[trigger] families@[i].queue_flags, QUEUE_GRAPHICS),
{
    let mut i: usize = 0;
    while i < families.len()
        invariant
            i <= families@.len(),
            forall|j: int|
                0 <= j < i ==> !has_flag(#[trigger] families@[j].queue_flags, QUEUE_GRAPHICS),
        decreases families@.len() - i,
    {
        if families[i].queue_flags & QUEUE_GRAPHICS == QUEUE_GRAPHICS {
            return true;
        }
        i = i + 1;
    }
    false
}

fn same_name(a: &Vec<u8>, b: &Vec<u8>) -> (r: bool)
    ensures
        r == (a@ == b@),
{
    if a.len() != b.len() {
        return false;
    }
    let mut i: usize = 0;
    while i < a.len()
        invariant
            a@.len() == b@.len(),
            i <= a@.len(),
            a@.subrange(0, i as int) == b@.subrange(0, i as int),
        decreases a@.len() - i,
    {
        if a[i] != b[i] {
            assert(a@[i as int] != b@[i as int]);
            return false;
        }
        i = i + 1;
        assert(a@.subrange(0, i as int) =~= b@.subrange(0, i as int));
    }
    assert(a@ =~= a@.subrange(0, i as int));
    assert(b@ =~= b@.subrange(0, i as int));
    true
}

/// Whether some name of `available` is `name`.
pub open spec fn has_name(available: Seq<Vec<u8>>, name: Seq<u8>) -> bool {
    exists|j: int| 0 <= j < available.len() && available[j]@ == name
}

/// Whether every name of `required` is among `available`.
pub open spec fn has_all_names(available: Seq<Vec<u8>>, required: Seq<Vec<u8>>) -> bool {
    forall|k: int| 0 <= k < required.len() ==> #[trigger] has_name(available, required[k]@)
}

/// Whether every name of `required` is among `available`.
pub fn supports_extensions(available: &Vec<Vec<u8>>, required: &Vec<Vec<u8>>) -> (r: bool)
    ensures
        r == has_all_names(available@, required@),
{
    let mut k: usize = 0;
    while k < required.len()
        invariant
            k <= required@.len(),
            forall|m: int| 0 <= m < k ==> #[trigger] has_name(available@, required@[m]@),
        decreases required@.len() - k,
    {
        let mut found = false;
        let mut j: usize = 0;
        while j < available.len()
            invariant
                j <= available@.len(),
                k < required@.len(),
                found ==> has_name(available@, required@[k as int]@),
                !found ==> forall|a: int| 0 <= a < j ==> available@[a]@ != required@[k as int]@,
            decreases available@.len() - j,
        {
            if !found && same_name(&available[j], &required[k]) {
                found = true;
            }
            j = j + 1;
        }
        if !found {
            assert(!has_name(available@, required@[k as int]@));
            return false;
        }
        k = k + 1;
    }
    true
}

/// Whether a device can render for this engine: a GPU, with a graphics family, that has every
/// required extension.
pub fn is_suitable(
    device_type: i32,
    families: &Vec<QueueFamily>,
    available_extensions: &Vec<Vec<u8>>,
    required_extensions: &Vec<Vec<u8>>,
) -> (r: bool)
    ensures
        r == (is_gpu_type(device_type) && (exists|i: int|
            0 <= i < families@.len() && has_flag(#[trigger] families@[i].queue_flags, QUEUE_GRAPHICS))
            && has_all_names(available_extensions@, required_extensions@)),
{
    is_gpu(device_type) && supports_graphics_and_presentation(families) && supports_extensions(
        available_extensions,
        required_extensions,
    )
}

pub open spec fn is_gpu_type(device_type: i32) -> bool {
    device_type == 1 || device_type == 2 || device_type == 3
}

/// The native image tilings.
pub const TILING_OPTIMAL: i32 = 0;
pub const TILING_LINEAR: i32 = 1;

/// What a device reports of one format: the features it has with each tiling.
#[derive(Clone, Copy, Debug, PartialEq, Eq, Structural)]
pub struct FormatSupport {
    pub format: i32,
    pub linear_tiling_features: u32,
    pub optimal_tiling_features: u32,
}

/// Whether `support` has every feature of `features` with `tiling`.
pub open spec fn supports_with(support: FormatSupport, tiling: i32, features: u32) -> bool {
    ||| tiling == TILING_LINEAR && support.linear_tiling_features & features == features
    ||| tiling == TILING_OPTIMAL && support.optimal_tiling_features & features == features
}

/// The first candidate format that has every feature of `features` with `tiling`.
pub fn get_supported_format(candidates: &Vec<FormatSupport>, tiling: i32, features: u32) -> (r:
    Option<i32>)
    ensures
        r.is_none() ==> forall|i: int|
            0 <= i < candidates@.len() ==> !supports_with(#[trigger] candidates@[i], tiling, features),
        r.is_some() ==> exists|i: int|
            0 <= i < candidates@.len() && candidates@[i].format == r.unwrap() && supports_with(
                candidates@[i],
                tiling,
                features,
            ) && forall|j: int|
                0 <= j < i ==> !supports_with(#[trigger] candidates@[j], tiling, features),
{
    let mut i: usize = 0;
    while i < candidates.len()
        invariant
            i <= candidates@.len(),
            forall|j: int|
                0 <= j < i ==> !supports_with(#[trigger] candidates@[j], tiling, features),
        decreases candidates@.len() - i,
    {
        let c = candidates[i];
        if (tiling == TILING_LINEAR && c.linear_tiling_features & features == features) || (tiling
            == TILING_OPTIMAL && c.optimal_tiling_features & features == features) {
            return Some(c.format);
        }
        i = i + 1;
    }
    None
}

} // verus!
