//! Queue families: which family of an adapter serves which role.

use ash::vk;
use std::collections::HashSet;
use vstd::prelude::*;

use super::surface;

verus! {

/// What a family of queues offers, as far as the assignment of roles reads it.
#[derive(Clone, Copy, Debug, PartialEq, Eq, Structural)]
pub struct Capabilities {
    pub graphics: bool,
    pub compute: bool,
    pub transfer: bool,
    pub video_decode: bool,
    pub video_encode: bool,
}

/// What an adapter reports of one queue family, and whether the family can
/// present to the surface.
#[derive(Clone, Copy, Debug)]
pub struct FamilyProperties {
    /// The number of queues in the family.
    pub queue_count: u32,
    /// The family's capabilities, by the raw value of `ash::vk::QueueFlags`.
    pub queue_flags: u32,
    /// Whether the family can present to the surface, or the error of that
    /// query. It counts only while no graphics family is assigned, and only
    /// for a family that offers graphics.
    pub present_support: Result<bool, vk::Result>,
}

/// The three roles a queue family is assigned to.
#[derive(Clone, Copy, Debug, PartialEq, Eq, Structural)]
pub enum Role {
    Graphics,
    Compute,
    Transfer,
}

/// The queue families assigned to the three roles, by their indices.
#[derive(Clone, Copy, Debug, PartialEq, Eq, Structural)]
pub struct Families {
    pub graphics: u32,
    pub compute: u32,
    pub transfer: u32,
}

/// The assignment of roles as far as it has come.
#[derive(Clone, Copy, Debug, PartialEq, Eq, Structural)]
pub struct FamiliesInfo {
    pub graphics: Option<u32>,
    pub compute: Option<u32>,
    pub transfer: Option<u32>,
}

/// One queue of the device, by its raw handle, and the family it belongs to.
#[derive(Clone, Copy, Debug, PartialEq, Eq, Structural)]
pub struct Queue {
    pub queue: u64,
    pub family: u32,
}

/// The queues of the device, one for each role.
#[derive(Clone, Copy, Debug, PartialEq, Eq, Structural)]
pub struct Queues {
    pub graphics: Queue,
    pub compute: Queue,
    pub transfer: Queue,
}

/// What creating the queues of one family takes: one queue of that family.
#[derive(Clone, Copy, Debug, PartialEq, Eq, Structural)]
pub struct DeviceQueueCreateInfo {
    pub queue_family_index: u32,
    pub queue_count: u32,
}

/// Why the queue families could not be assigned.
#[derive(Debug)]
pub enum QueueError {
    /// No family can take the role that is named.
    Create(Role),
    /// The surface failed to say whether a family can present to it.
    Surface(surface::Error),
}

/// What the raw flags of a queue family say: a capability is offered where
/// its bit is set.
pub open spec fn spec_capabilities(queue_flags: u32) -> Capabilities {
    Capabilities {
        graphics: queue_flags & 0x1 == 0x1,
        compute: queue_flags & 0x2 == 0x2,
        transfer: queue_flags & 0x4 == 0x4,
        video_decode: queue_flags & 0x20 == 0x20,
        video_encode: queue_flags & 0x40 == 0x40,
    }
}

/// Reads the raw flags of a queue family with `ash::vk::QueueFlags::contains`.
/// Trusted: that `contains` tests whether every bit of its argument is set, and
/// that `ash` gives `GRAPHICS`, `COMPUTE`, `TRANSFER`, `VIDEO_DECODE_KHR` and
/// `VIDEO_ENCODE_KHR` the bits 0x1, 0x2, 0x4, 0x20 and 0x40.
#[verifier::external_body]
fn capabilities(queue_flags: u32) -> (offered: Capabilities)
    ensures
        offered == spec_capabilities(queue_flags),
{
    let flags = vk::QueueFlags::from_raw(queue_flags);
    Capabilities {
        graphics: flags.contains(vk::QueueFlags::GRAPHICS),
        compute: flags.contains(vk::QueueFlags::COMPUTE),
        transfer: flags.contains(vk::QueueFlags::TRANSFER),
        video_decode: flags.contains(vk::QueueFlags::VIDEO_DECODE_KHR),
        video_encode: flags.contains(vk::QueueFlags::VIDEO_ENCODE_KHR),
    }
}

impl FamilyProperties {
    /// What the family offers.
    pub open spec fn spec_capabilities(&self) -> Capabilities {
        spec_capabilities(self.queue_flags)
    }

    /// What the family offers.
    #[verifier::when_used_as_spec(spec_capabilities)]
    pub fn capabilities(&self) -> (offered: Capabilities)
        ensures
            offered == self.spec_capabilities(),
    {
        capabilities(self.queue_flags)
    }

    /// Whether the family has queues and offers graphics.
    pub open spec fn offers_graphics(&self) -> bool {
        self.queue_count > 0 && self.spec_capabilities().graphics
    }

    /// Whether the family stands for the graphics role: it offers graphics,
    /// and asking whether it can present does not answer no.
    pub open spec fn graphics_candidate(&self) -> bool {
        self.offers_graphics() && self.present_support != Ok::<bool, vk::Result>(false)
    }

    /// Whether the family has queues and offers compute.
    pub open spec fn offers_compute(&self) -> bool {
        self.queue_count > 0 && self.spec_capabilities().compute
    }

    /// Whether the family has queues and offers transfer, and neither decodes
    /// nor encodes video.
    pub open spec fn offers_plain_transfer(&self) -> bool {
        self.queue_count > 0 && self.spec_capabilities().transfer
            && !self.spec_capabilities().video_decode && !self.spec_capabilities().video_encode
    }
}

/// Whether a family stands for a role: for graphics, that it offers graphics
/// and is not known to be unable to present; for compute, that it offers
/// compute; for transfer, that it offers transfer and no video coding.
pub open spec fn stands_for(role: Role, family: FamilyProperties) -> bool {
    match role {
        Role::Graphics => family.graphics_candidate(),
        Role::Compute => family.offers_compute(),
        Role::Transfer => family.offers_plain_transfer(),
    }
}

/// The index of the first family from `from` on that stands for `role`.
pub open spec fn first_family(families: Seq<FamilyProperties>, from: int, role: Role) -> Option<
    int,
>
    decreases families.len() - from,
{
    if from < 0 || from >= families.len() {
        None
    } else if stands_for(role, families[from]) {
        Some(from)
    } else {
        first_family(families, from + 1, role)
    }
}

/// The first family from `from` on that stands for a role is the one before
/// which none does; there is none where none does at all.
pub proof fn lemma_first_family(
    families: Seq<FamilyProperties>,
    from: int,
    role: Role,
)
    requires
        0 <= from,
    ensures
        match first_family(families, from, role) {
            Some(i) => from <= i < families.len() && stands_for(role, families[i]) && forall|j: int|
                from <= j < i ==> !stands_for(role, #[trigger] families[j]),
            None => forall|j: int|
                from <= j < families.len() ==> !stands_for(role, #[trigger] families[j]),
        },
    decreases families.len() - from,
{
    if from < families.len() && !stands_for(role, families[from]) {
        lemma_first_family(families, from + 1, role);
    }
}

/// A family that stands for a role, and before which none does from `from`
/// on, is the first.
pub proof fn lemma_first_family_is(
    families: Seq<FamilyProperties>,
    from: int,
    role: Role,
    i: int,
)
    requires
        0 <= from <= i < families.len(),
        stands_for(role, families[i]),
        forall|j: int| from <= j < i ==> !stands_for(role, #[trigger] families[j]),
    ensures
        first_family(families, from, role) == Some(i),
    decreases i - from,
{
    if from < i {
        lemma_first_family_is(families, from + 1, role, i);
    }
}

/// Where no family from `from` on stands for a role, there is no first.
pub proof fn lemma_first_family_none(
    families: Seq<FamilyProperties>,
    from: int,
    role: Role,
)
    requires
        forall|j: int| from <= j < families.len() ==> !stands_for(role, #[trigger] families[j]),
    ensures
        first_family(families, from, role).is_none(),
    decreases families.len() - from,
{
    if 0 <= from < families.len() {
        lemma_first_family_none(families, from + 1, role);
    }
}

/// The family that stands for the graphics role: the first that offers
/// graphics and is not known to be unable to present.
pub open spec fn graphics_choice(families: Seq<FamilyProperties>) -> Option<int> {
    first_family(families, 0, Role::Graphics)
}

/// The compute family: the first after the graphics family that offers compute.
pub open spec fn compute_choice(families: Seq<FamilyProperties>) -> Option<int> {
    match graphics_choice(families) {
        Some(g) => first_family(families, g + 1, Role::Compute),
        None => None,
    }
}

/// The transfer family: the first that offers transfer and no video coding.
pub open spec fn transfer_choice(families: Seq<FamilyProperties>) -> Option<int> {
    first_family(families, 0, Role::Transfer)
}

/// The error of the one presentation query that decides the graphics family,
/// if that query failed.
pub open spec fn query_failure(families: Seq<FamilyProperties>) -> Option<vk::Result> {
    match graphics_choice(families) {
        Some(g) => match families[g].present_support {
            Err(code) => Some(code),
            Ok(_) => None,
        },
        None => None,
    }
}

/// The index of a family, where there is one.
pub open spec fn as_index(choice: Option<int>) -> Option<u32> {
    match choice {
        Some(i) => Some(i as u32),
        None => None,
    }
}

/// The roles as assigned over a whole list of families whose decisive
/// presentation query did not fail.
pub open spec fn assigned(families: Seq<FamilyProperties>) -> FamiliesInfo {
    FamiliesInfo {
        graphics: as_index(graphics_choice(families)),
        compute: as_index(compute_choice(families)),
        transfer: as_index(transfer_choice(families)),
    }
}

impl Role {
    /// The role's name in messages.
    pub fn name(&self) -> (name: &'static str)
        ensures
            name@ == match *self {
                Role::Graphics => "graphics"@,
                Role::Compute => "compute"@,
                Role::Transfer => "transfer"@,
            },
    {
        match self {
            Role::Graphics => "graphics",
            Role::Compute => "compute",
            Role::Transfer => "transfer",
        }
    }
}

impl FamiliesInfo {
    /// Whether every role has its family.
    pub open spec fn spec_is_complete(&self) -> bool {
        self.graphics.is_some() && self.compute.is_some() && self.transfer.is_some()
    }

    /// Whether every role has its family.
    #[verifier::when_used_as_spec(spec_is_complete)]
    pub fn is_complete(&self) -> (complete: bool)
        ensures
            complete == self.spec_is_complete(),
    {
        self.graphics.is_some() && self.compute.is_some() && self.transfer.is_some()
    }

    /// The families of a complete assignment; of an incomplete one, the first
    /// role without a family, in the order graphics, compute, transfer.
    pub open spec fn resolved(&self) -> Result<Families, Role> {
        match (self.graphics, self.compute, self.transfer) {
            (Some(graphics), Some(compute), Some(transfer)) => Ok(
                Families { graphics, compute, transfer },
            ),
            (None, _, _) => Err(Role::Graphics),
            (Some(_), None, _) => Err(Role::Compute),
            (Some(_), Some(_), None) => Err(Role::Transfer),
        }
    }
}

/// What the assignment of roles comes to over a whole list of families: the
/// three families, or the error of the presentation query that failed, or the
/// first role left without a family.
pub open spec fn selection(families: Seq<FamilyProperties>) -> Result<Families, QueueError> {
    match query_failure(families) {
        Some(code) => Err(QueueError::Surface(surface::Error::GetConfigOptions(code))),
        None => match assigned(families).resolved() {
            Ok(found) => Ok(found),
            Err(role) => Err(QueueError::Create(role)),
        },
    }
}

impl Families {
    /// The families of a complete assignment, or the first role left without.
    pub fn try_from(value: FamiliesInfo) -> (families: Result<Self, Role>)
        ensures
            families == value.resolved(),
    {
        let graphics = match value.graphics {
            Some(index) => index,
            None => { return Err(Role::Graphics); },
        };
        let compute = match value.compute {
            Some(index) => index,
            None => { return Err(Role::Compute); },
        };
        let transfer = match value.transfer {
            Some(index) => index,
            None => { return Err(Role::Transfer); },
        };
        Ok(Families { graphics, compute, transfer })
    }

    /// Assigns the three roles in one pass over the families of an adapter,
    /// in the order the adapter reports them; families without queues are
    /// passed over.
    ///
    /// Graphics goes to the first family that offers graphics and can present
    /// to the surface; compute to the first family after it that offers
    /// compute; transfer to the first family that offers transfer and neither
    /// decodes nor encodes video. A presentation query that failed while the
    /// graphics family was sought is an error; so is a role left without a
    /// family, and the error names the first such role.
    pub fn create_infos(family_props: &Vec<FamilyProperties>) -> (families: Result<
        Self,
        QueueError,
    >)
        requires
            family_props.len() <= u32::MAX,
        ensures
            families == selection(family_props@),
    {
        let mut found_indices = FamiliesInfo { graphics: None, compute: None, transfer: None };
        let mut index: usize = 0;
        while index < family_props.len()
            invariant_except_break
                !found_indices.is_complete(),
            invariant
                index <= family_props.len(),
                family_props.len() <= u32::MAX,
                match found_indices.graphics {
                    Some(g) => g < index && stands_for(Role::Graphics, family_props@[g as int])
                        && family_props@[g as int].present_support == Ok::<bool, vk::Result>(true)
                        && forall|j: int|
                        0 <= j < g ==> !stands_for(Role::Graphics, #[trigger] family_props@[j]),
                    None => forall|j: int|
                        0 <= j < index ==> !stands_for(Role::Graphics, #[trigger] family_props@[j]),
                },
                match found_indices.compute {
                    Some(c) => found_indices.graphics matches Some(g) && g < c
                        && c < index && stands_for(Role::Compute, family_props@[c as int])
                        && forall|j: int|
                        g < j < c ==> !stands_for(Role::Compute, #[trigger] family_props@[j]),
                    None => found_indices.graphics matches Some(g) ==> forall|j: int|
                        g < j < index ==> !stands_for(Role::Compute, #[trigger] family_props@[j]),
                },
                match found_indices.transfer {
                    Some(t) => t < index && stands_for(Role::Transfer, family_props@[t as int])
                        && forall|j: int|
                        0 <= j < t ==> !stands_for(Role::Transfer, #[trigger] family_props@[j]),
                    None => forall|j: int|
                        0 <= j < index ==> !stands_for(Role::Transfer, #[trigger] family_props@[j]),
                },
            ensures
                found_indices.is_complete() || index == family_props.len(),
            decreases family_props.len() - index,
        {
            let queue_family = &family_props[index];
            if queue_family.queue_count > 0 {
                let idx = index as u32;
                let offered = queue_family.capabilities();

                if found_indices.graphics.is_none() && offered.graphics {
                    match queue_family.present_support {
                        Err(code) => {
                            proof {
                                lemma_first_family_is(
                                    family_props@,
                                    0,
                                    Role::Graphics,
                                    index as int,
                                );
                            }
                            return Err(
                                QueueError::Surface(surface::Error::GetConfigOptions(code)),
                            );
                        },
                        Ok(true) => {
                            found_indices.graphics = Some(idx);
                        },
                        Ok(false) => {},
                    }
                } else if found_indices.compute.is_none() && offered.compute {
                    if let Some(g_idx) = found_indices.graphics {
                        if idx != g_idx {
                            found_indices.compute = Some(idx);
                        }
                    }
                }
                if found_indices.transfer.is_none() && offered.transfer && !offered.video_decode
                    && !offered.video_encode {
                    found_indices.transfer = Some(idx);
                }
            }
            index += 1;
            if found_indices.is_complete() {
                break ;
            }
        }
        proof {
            match found_indices.graphics {
                Some(g) => {
                    lemma_first_family_is(family_props@, 0, Role::Graphics, g as int);
                    match found_indices.compute {
                        Some(c) => {
                            lemma_first_family_is(family_props@, g + 1, Role::Compute, c as int);
                        },
                        None => {
                            lemma_first_family_none(family_props@, g + 1, Role::Compute);
                        },
                    }
                },
                None => {
                    lemma_first_family_none(family_props@, 0, Role::Graphics);
                },
            }
            match found_indices.transfer {
                Some(t) => {
                    lemma_first_family_is(family_props@, 0, Role::Transfer, t as int);
                },
                None => {
                    lemma_first_family_none(family_props@, 0, Role::Transfer);
                },
            }
            assert(found_indices == assigned(family_props@));
        }
        match Self::try_from(found_indices) {
            Ok(families) => Ok(families),
            Err(role) => Err(QueueError::Create(role)),
        }
    }

    /// The distinct families among the three.
    pub fn unique(&self) -> (indices: HashSet<u32>)
        ensures
            indices@ == set![self.graphics, self.compute, self.transfer],
    {
        let mut indices: HashSet<u32> = HashSet::new();
        indices.insert(self.graphics);
        indices.insert(self.compute);
        indices.insert(self.transfer);
        assert(indices@ =~= set![self.graphics, self.compute, self.transfer]);
        indices
    }
}

impl Queue {
    pub fn new(queue: u64, family: u32) -> (created: Self)
        ensures
            created == (Queue { queue, family }),
    {
        Queue { queue, family }
    }
}

impl Queues {
    /// The queues the device gave for the three roles, each with its family.
    pub fn new(families: &Families, graphics: u64, compute: u64, transfer: u64) -> (queues: Self)
        ensures
            queues == (Queues {
                graphics: Queue { queue: graphics, family: families.graphics },
                compute: Queue { queue: compute, family: families.compute },
                transfer: Queue { queue: transfer, family: families.transfer },
            }),
    {
        let graphics = Queue::new(graphics, families.graphics);
        let compute = Queue::new(compute, families.compute);
        let transfer = Queue::new(transfer, families.transfer);
        Queues { graphics, compute, transfer }
    }

    /// The families of the three roles, once and in the order graphics,
    /// compute, transfer.
    pub open spec fn distinct(families: Families) -> Seq<u32> {
        let first = seq![families.graphics];
        let second = if families.compute == families.graphics {
            first
        } else {
            first.push(families.compute)
        };
        if families.transfer == families.graphics || families.transfer == families.compute {
            second
        } else {
            second.push(families.transfer)
        }
    }

    /// The requests for queues that go with an assignment: one queue of each
    /// family that has a role, each family once.
    pub open spec fn requests(families: Families) -> Seq<DeviceQueueCreateInfo> {
        Self::distinct(families).map_values(
            |index: u32| DeviceQueueCreateInfo { queue_family_index: index, queue_count: 1 },
        )
    }

    /// What creating the queues takes: the assignment of the roles, and for
    /// each family that has a role, once, the request for one queue of it.
    pub fn create_infos(family_props: &Vec<FamilyProperties>) -> (infos: Result<
        (Vec<DeviceQueueCreateInfo>, Families),
        QueueError,
    >)
        requires
            family_props.len() <= u32::MAX,
        ensures
            match selection(family_props@) {
                Err(e) => infos == Err::<(Vec<DeviceQueueCreateInfo>, Families), QueueError>(e),
                Ok(families) => infos matches Ok((create_infos, assigned)) && assigned == families
                    && create_infos@ == Self::requests(families),
            },
    {
        let families = Families::create_infos(family_props)?;
        let mut create_infos: Vec<DeviceQueueCreateInfo> = Vec::new();
        create_infos.push(
            DeviceQueueCreateInfo { queue_family_index: families.graphics, queue_count: 1 },
        );
        if families.compute != families.graphics {
            create_infos.push(
                DeviceQueueCreateInfo { queue_family_index: families.compute, queue_count: 1 },
            );
        }
        if families.transfer != families.graphics && families.transfer != families.compute {
            create_infos.push(
                DeviceQueueCreateInfo { queue_family_index: families.transfer, queue_count: 1 },
            );
        }
        assert(create_infos@ =~= Self::requests(families));
        Ok((create_infos, families))
    }
}

/// The families that queues are requested of are those that have a role, each
/// once: the same families as [`Families::unique`] gives.
pub proof fn lemma_distinct_families_are_unique(families: Families)
    ensures
        Queues::distinct(families).no_duplicates(),
        Queues::distinct(families).to_set() == set![
            families.graphics,
            families.compute,
            families.transfer,
        ],
        Queues::requests(families).len() == Queues::distinct(families).len(),
{
    let listed = Queues::distinct(families);
    let unique = set![families.graphics, families.compute, families.transfer];
    assert forall|index: u32| listed.to_set().contains(index) == unique.contains(index) by {
        if listed.to_set().contains(index) {
            let i = choose|i: int| 0 <= i < listed.len() && listed[i] == index;
            assert(listed[i] == index);
        }
        if unique.contains(index) {
            if index == families.graphics {
                assert(listed[0] == index);
            } else if index == families.compute {
                assert(listed[1] == index);
            } else {
                assert(listed[listed.len() - 1] == index);
            }
            assert(listed.contains(index));
        }
    }
    assert(listed.to_set() =~= unique);
}

/// Assignment depends on the list of families alone: two lists that agree
/// family by family come to the same three families, or to the same failure.
pub proof fn lemma_selection_deterministic(a: Seq<FamilyProperties>, b: Seq<FamilyProperties>)
    requires
        a.len() == b.len(),
        forall|i: int| 0 <= i < a.len() ==> a[i] == b[i],
    ensures
        selection(a) == selection(b),
{
    assert(a =~= b);
}

/// A failed assignment says what went wrong: the presentation query that
/// failed, or the role left without a family.
///
/// Where no query failed: with no family that offers graphics and can
/// present, the role named is graphics; with a graphics family, but no other
/// family that offers compute, it is compute; with graphics and compute
/// families, but no family for plain transfer, it is transfer.
pub proof fn lemma_unassigned_role_is_named(families: Seq<FamilyProperties>)
    ensures
        selection(families) matches Err(e) ==> (e matches QueueError::Create(_)) || (
        e matches QueueError::Surface(surface::Error::GetConfigOptions(_))),
        query_failure(families).is_none() && (forall|i: int|
            0 <= i < families.len() ==> !((#[trigger] families[i]).offers_graphics()
                && families[i].present_support == Ok::<bool, vk::Result>(true))) ==> selection(
            families,
        ) == Err::<Families, QueueError>(QueueError::Create(Role::Graphics)),
        query_failure(families).is_none() && graphics_choice(families).is_some() && (forall|
            j: int,
        |
            0 <= j < families.len() && j != graphics_choice(families).unwrap() ==> !(
            #[trigger] families[j]).offers_compute()) ==> selection(families) == Err::<
            Families,
            QueueError,
        >(QueueError::Create(Role::Compute)),
        query_failure(families).is_none() && graphics_choice(families).is_some()
            && compute_choice(families).is_some() && (forall|k: int|
            0 <= k < families.len() ==> !(#[trigger] families[k]).offers_plain_transfer())
            ==> selection(families) == Err::<Families, QueueError>(
            QueueError::Create(Role::Transfer),
        ),
{
    lemma_first_family(families, 0, Role::Graphics);
    lemma_first_family(families, 0, Role::Transfer);
    if let Some(g) = graphics_choice(families) {
        lemma_first_family(families, g + 1, Role::Compute);
        assert(stands_for(Role::Graphics, families[g]));
        assert(families[g].offers_graphics());
        if query_failure(families).is_none() {
            let can_present = families[g].present_support->Ok_0;
            assert(families[g].present_support == Ok::<bool, vk::Result>(can_present));
            assert(families[g].present_support == Ok::<bool, vk::Result>(true));
        }
    } else {
        assert(assigned(families).graphics.is_none());
        assert(assigned(families).resolved() == Err::<Families, Role>(Role::Graphics));
    }
}

/// An assignment that succeeds gives the graphics family presentation, keeps
/// compute apart from graphics, and keeps video coding off the transfer
/// family.
pub proof fn lemma_assigned_families_fit(families: Seq<FamilyProperties>)
    requires
        families.len() <= u32::MAX,
    ensures
        selection(families) matches Ok(found) ==> {
            &&& found.graphics < families.len()
            &&& found.compute < families.len()
            &&& found.transfer < families.len()
            &&& families[found.graphics as int].offers_graphics()
            &&& families[found.graphics as int].present_support == Ok::<bool, vk::Result>(true)
            &&& families[found.compute as int].offers_compute()
            &&& found.compute != found.graphics
            &&& families[found.transfer as int].offers_plain_transfer()
        },
{
    lemma_first_family(families, 0, Role::Graphics);
    lemma_first_family(families, 0, Role::Transfer);
    if let Some(g) = graphics_choice(families) {
        lemma_first_family(families, g + 1, Role::Compute);
        if query_failure(families).is_none() {
            let can_present = families[g].present_support->Ok_0;
            assert(families[g].present_support == Ok::<bool, vk::Result>(can_present));
        }
    }
}

} // verus!
