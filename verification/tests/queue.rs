use ash::vk;
use rayge::context::queue::{
    Capabilities, DeviceQueueCreateInfo, Families, FamiliesInfo, FamilyProperties, Queue,
    QueueError, Queues, Role,
};
use rayge::context::surface;
use std::collections::HashSet;

fn g() -> u32 {
    vk::QueueFlags::GRAPHICS.as_raw()
}

fn c() -> u32 {
    vk::QueueFlags::COMPUTE.as_raw()
}

fn t() -> u32 {
    vk::QueueFlags::TRANSFER.as_raw()
}

fn vd() -> u32 {
    vk::QueueFlags::VIDEO_DECODE_KHR.as_raw()
}

fn ve() -> u32 {
    vk::QueueFlags::VIDEO_ENCODE_KHR.as_raw()
}

fn family(count: u32, flags: u32, present: bool) -> FamilyProperties {
    FamilyProperties { queue_count: count, queue_flags: flags, present_support: Ok(present) }
}

fn failing(count: u32, flags: u32) -> FamilyProperties {
    FamilyProperties {
        queue_count: count,
        queue_flags: flags,
        present_support: Err(vk::Result::ERROR_SURFACE_LOST_KHR),
    }
}

fn assigned(families: &Vec<FamilyProperties>) -> Families {
    match Families::create_infos(families) {
        Ok(found) => found,
        Err(e) => panic!("unexpected: {e:?}"),
    }
}

fn unassigned(families: &Vec<FamilyProperties>) -> Role {
    match Families::create_infos(families) {
        Err(QueueError::Create(role)) => role,
        other => panic!("unexpected: {other:?}"),
    }
}

#[test]
fn flags_are_read_bit_by_bit() {
    let none = family(1, 0, false).capabilities();
    assert_eq!(
        none,
        Capabilities {
            graphics: false,
            compute: false,
            transfer: false,
            video_decode: false,
            video_encode: false,
        }
    );
    assert!(family(1, g(), false).capabilities().graphics);
    assert!(family(1, c(), false).capabilities().compute);
    assert!(family(1, t(), false).capabilities().transfer);
    assert!(family(1, vd(), false).capabilities().video_decode);
    assert!(family(1, ve(), false).capabilities().video_encode);
    let sparse = family(1, vk::QueueFlags::SPARSE_BINDING.as_raw(), false).capabilities();
    assert_eq!(sparse, none);
    let all = family(1, g() | c() | t() | vd() | ve(), false).capabilities();
    assert_eq!(
        all,
        Capabilities {
            graphics: true,
            compute: true,
            transfer: true,
            video_decode: true,
            video_encode: true,
        }
    );
    let only = family(1, c() | ve(), false).capabilities();
    assert_eq!(
        only,
        Capabilities {
            graphics: false,
            compute: true,
            transfer: false,
            video_decode: false,
            video_encode: true,
        }
    );
}

#[test]
fn typical_adapter_is_assigned() {
    let families = vec![
        family(16, g() | c() | t(), true),
        family(2, t(), false),
        family(8, c() | t(), false),
    ];
    assert_eq!(assigned(&families), Families { graphics: 0, compute: 2, transfer: 0 });
}

#[test]
fn one_family_may_take_graphics_and_transfer() {
    let families = vec![family(1, g() | t(), true), family(1, c(), false)];
    assert_eq!(assigned(&families), Families { graphics: 0, compute: 1, transfer: 0 });
}

#[test]
fn one_family_may_take_compute_and_transfer() {
    let families = vec![family(1, g(), true), family(1, c() | t(), false)];
    assert_eq!(assigned(&families), Families { graphics: 0, compute: 1, transfer: 1 });
}

#[test]
fn assignment_is_the_same_every_time() {
    let families = vec![
        family(0, g() | c() | t(), true),
        family(4, g() | c(), false),
        family(4, g() | c() | t() | vd(), true),
        family(1, c(), false),
        family(1, t() | ve(), false),
        family(1, t(), false),
    ];
    let first = assigned(&families);
    assert_eq!(first, Families { graphics: 2, compute: 3, transfer: 5 });
    for _ in 0..5 {
        assert_eq!(assigned(&families), first);
    }
    let copy: Vec<FamilyProperties> = families.iter().copied().collect();
    assert_eq!(assigned(&copy), first);
}

#[test]
fn families_without_queues_are_passed_over() {
    let families = vec![
        family(0, g() | c() | t(), true),
        family(1, g(), true),
        family(0, c(), false),
        family(1, c(), false),
        family(0, t(), false),
        family(1, t(), false),
    ];
    assert_eq!(assigned(&families), Families { graphics: 1, compute: 3, transfer: 5 });
}

#[test]
fn graphics_needs_presentation() {
    let families = vec![
        family(1, g() | c() | t(), false),
        family(1, g(), true),
        family(1, c(), false),
    ];
    assert_eq!(assigned(&families), Families { graphics: 1, compute: 2, transfer: 0 });
}

#[test]
fn compute_comes_after_graphics() {
    // The compute family before the graphics family does not count.
    let families = vec![family(1, c() | t(), false), family(1, g(), true)];
    assert_eq!(unassigned(&families), Role::Compute);
    let families = vec![
        family(1, c() | t(), false),
        family(1, g() | c(), true),
        family(1, c(), false),
    ];
    assert_eq!(assigned(&families), Families { graphics: 1, compute: 2, transfer: 0 });
}

#[test]
fn transfer_keeps_clear_of_video() {
    let families = vec![
        family(1, g(), true),
        family(1, c() | t() | vd(), false),
        family(1, t() | ve(), false),
        family(1, t(), false),
    ];
    assert_eq!(assigned(&families), Families { graphics: 0, compute: 1, transfer: 3 });
}

#[test]
fn missing_graphics_is_named() {
    assert_eq!(unassigned(&vec![]), Role::Graphics);
    let families = vec![family(1, g() | c() | t(), false), family(1, c() | t(), true)];
    assert_eq!(unassigned(&families), Role::Graphics);
    let families = vec![family(0, g() | c() | t(), true), family(1, c() | t(), true)];
    assert_eq!(unassigned(&families), Role::Graphics);
}

#[test]
fn missing_compute_is_named() {
    let families = vec![family(1, g() | c() | t(), true)];
    assert_eq!(unassigned(&families), Role::Compute);
    let families = vec![family(1, g() | c() | t(), true), family(1, t(), false)];
    assert_eq!(unassigned(&families), Role::Compute);
}

#[test]
fn missing_transfer_is_named() {
    let families = vec![family(1, g(), true), family(1, c(), false)];
    assert_eq!(unassigned(&families), Role::Transfer);
    let families = vec![
        family(1, g() | t() | vd(), true),
        family(1, c() | t() | ve(), false),
    ];
    assert_eq!(unassigned(&families), Role::Transfer);
}

#[test]
fn role_names() {
    assert_eq!(Role::Graphics.name(), "graphics");
    assert_eq!(Role::Compute.name(), "compute");
    assert_eq!(Role::Transfer.name(), "transfer");
}

#[test]
fn failed_presentation_query_is_an_error() {
    let families = vec![family(1, c() | t(), false), failing(1, g()), family(1, c(), false)];
    assert!(matches!(
        Families::create_infos(&families),
        Err(QueueError::Surface(surface::Error::GetConfigOptions(
            vk::Result::ERROR_SURFACE_LOST_KHR
        )))
    ));
}

#[test]
fn presentation_query_counts_only_while_graphics_is_sought() {
    // After the graphics family is found, no further query is looked at.
    let families = vec![family(1, g(), true), failing(1, g() | c()), family(1, t(), false)];
    assert_eq!(assigned(&families), Families { graphics: 0, compute: 1, transfer: 2 });
    // Nor is the query of a family that does not offer graphics, or has no queues.
    let families = vec![
        failing(1, c() | t()),
        failing(0, g()),
        family(1, g(), true),
        family(1, c(), false),
    ];
    assert_eq!(assigned(&families), Families { graphics: 2, compute: 3, transfer: 0 });
}

#[test]
fn try_from_names_the_first_role_without_family() {
    let all = FamiliesInfo { graphics: Some(1), compute: Some(2), transfer: Some(3) };
    assert_eq!(
        Families::try_from(all),
        Ok(Families { graphics: 1, compute: 2, transfer: 3 })
    );
    let none = FamiliesInfo { graphics: None, compute: None, transfer: None };
    assert_eq!(Families::try_from(none), Err(Role::Graphics));
    assert_eq!(
        Families::try_from(FamiliesInfo { graphics: None, ..all }),
        Err(Role::Graphics)
    );
    assert_eq!(
        Families::try_from(FamiliesInfo { compute: None, transfer: None, ..all }),
        Err(Role::Compute)
    );
    assert_eq!(
        Families::try_from(FamiliesInfo { transfer: None, ..all }),
        Err(Role::Transfer)
    );
}

#[test]
fn is_complete_needs_all_three() {
    let all = FamiliesInfo { graphics: Some(0), compute: Some(1), transfer: Some(2) };
    assert!(all.is_complete());
    assert!(!FamiliesInfo { graphics: None, ..all }.is_complete());
    assert!(!FamiliesInfo { compute: None, ..all }.is_complete());
    assert!(!FamiliesInfo { transfer: None, ..all }.is_complete());
}

#[test]
fn unique_families() {
    let set = |v: &[u32]| v.iter().copied().collect::<HashSet<u32>>();
    assert_eq!(Families { graphics: 0, compute: 1, transfer: 2 }.unique(), set(&[0, 1, 2]));
    assert_eq!(Families { graphics: 0, compute: 1, transfer: 0 }.unique(), set(&[0, 1]));
    assert_eq!(Families { graphics: 3, compute: 3, transfer: 3 }.unique(), set(&[3]));
}

#[test]
fn queue_create_infos_name_each_family_once() {
    let info = |index: u32| DeviceQueueCreateInfo { queue_family_index: index, queue_count: 1 };
    let families = vec![
        family(16, g() | c() | t(), true),
        family(2, t(), false),
        family(8, c() | t(), false),
    ];
    match Queues::create_infos(&families) {
        Ok((infos, found)) => {
            assert_eq!(found, Families { graphics: 0, compute: 2, transfer: 0 });
            assert_eq!(infos, vec![info(0), info(2)]);
        }
        Err(e) => panic!("unexpected: {e:?}"),
    }
    let families = vec![family(1, g(), true), family(1, c(), false), family(1, t(), false)];
    match Queues::create_infos(&families) {
        Ok((infos, _)) => assert_eq!(infos, vec![info(0), info(1), info(2)]),
        Err(e) => panic!("unexpected: {e:?}"),
    }
    let families = vec![family(1, g(), true), family(1, c() | t(), false)];
    match Queues::create_infos(&families) {
        Ok((infos, _)) => assert_eq!(infos, vec![info(0), info(1)]),
        Err(e) => panic!("unexpected: {e:?}"),
    }
    assert!(matches!(
        Queues::create_infos(&vec![family(1, g(), true)]),
        Err(QueueError::Create(Role::Compute))
    ));
}

#[test]
fn queues_keep_their_families() {
    let families = Families { graphics: 0, compute: 2, transfer: 1 };
    let queues = Queues::new(&families, 100, 200, 300);
    assert_eq!(queues.graphics, Queue { queue: 100, family: 0 });
    assert_eq!(queues.compute, Queue { queue: 200, family: 2 });
    assert_eq!(queues.transfer, Queue { queue: 300, family: 1 });
    assert_eq!(Queue::new(5, 6), Queue { queue: 5, family: 6 });
}
