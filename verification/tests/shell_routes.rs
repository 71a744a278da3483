use meditamer::shell::callback_routes::{CallbackRoute, CallbackRouteError, CallbackRouteTable};
use meditamer::shell::intent_queue::{IntentQueue, IntentQueueError};
use meditamer::shell::types::{
    InstanceGeneration, NavIntent, OwnedNavIntent, ProviderGeneration, ProviderId, ProviderToken, SurfaceInstanceToken,
    SurfaceRef,
};

#[test]
fn disabled_routes_do_not_resolve_and_capacity_is_explicit() {
    let mut table = CallbackRouteTable::<u8, 2>::new();
    let first = table.claim(11).unwrap();
    let second = table.claim(22).unwrap();
    assert_eq!(table.resolve(first), None);
    table.enable(first).unwrap();
    assert_eq!(table.resolve(first), Some(11));
    assert_eq!(table.claim(33), Err(CallbackRouteError::Capacity));
    table.disable(first).unwrap();
    assert_eq!(table.resolve(first), None);
    assert_eq!(table.resolve(second), None);
    assert!(table.any_value(|value| value == 11));
    table.release(first).unwrap();
    assert!(!table.any_value(|value| value == 11));
}

#[test]
fn reused_slot_rejects_the_old_route_generation() {
    let mut table = CallbackRouteTable::<u8, 1>::new();
    let first = table.claim(11).unwrap();
    table.enable(first).unwrap();
    table.release(first).unwrap();
    let second = table.claim(22).unwrap();
    table.enable(second).unwrap();

    assert_ne!(first, second);
    assert_eq!(table.resolve(first), None);
    assert_eq!(table.enable(first), Err(CallbackRouteError::StaleRoute));
    assert_eq!(table.resolve(second), Some(22));
}

#[test]
fn four_owner_handoff_peak_is_bounded_and_reusable() {
    let mut table = CallbackRouteTable::<u8, 4>::new();
    let routes = [table.claim(1).unwrap(), table.claim(2).unwrap(), table.claim(3).unwrap(), table.claim(4).unwrap()];
    assert_eq!(table.claim(5), Err(CallbackRouteError::Capacity));
    for (route, value) in routes.into_iter().zip(1_u8..=4) {
        table.enable(route).unwrap();
        assert_eq!(table.resolve(route), Some(value));
    }

    table.release(routes[1]).unwrap();
    let replacement = table.claim(5).unwrap();
    table.enable(replacement).unwrap();
    assert_eq!(table.resolve(routes[1]), None);
    assert_eq!(table.resolve(replacement), Some(5));
}

#[test]
fn route_encoding_round_trips_and_rejects_malformed_words() {
    let mut table = CallbackRouteTable::<u8, 3>::new();
    let _ = table.claim(1).unwrap();
    let route = table.claim(2).unwrap();
    assert_eq!(route.index(), 1);
    assert_eq!(route.generation(), 1);
    assert_eq!(route.encoded(), (1 << 3) | 2);
    assert_eq!(CallbackRoute::from_encoded(route.encoded()), Some(route));
    assert_eq!(CallbackRoute::from_encoded(0), None);
    assert_eq!(CallbackRoute::from_encoded(1 << 3), None);
    assert_eq!(CallbackRoute::from_encoded(2), None);
}

#[test]
fn releasing_twice_and_zero_capacity_are_refused() {
    let mut table = CallbackRouteTable::<u8, 1>::new();
    let route = table.claim(7).unwrap();
    table.release(route).unwrap();
    assert_eq!(table.release(route), Err(CallbackRouteError::StaleRoute));
    assert_eq!(table.disable(route), Err(CallbackRouteError::StaleRoute));

    let mut empty = CallbackRouteTable::<u8, 0>::new();
    assert_eq!(empty.claim(1), Err(CallbackRouteError::InvalidCapacity));
}

fn owner(id: u16, generation: u32) -> ProviderToken {
    ProviderToken { id: ProviderId(id), generation: ProviderGeneration(generation) }
}

fn instance(owner: ProviderToken, surface: u16, generation: u32) -> SurfaceInstanceToken {
    SurfaceInstanceToken::issued(SurfaceRef::new(owner, surface), InstanceGeneration(generation))
}

#[test]
fn intent_queue_is_fifo_bounded_and_purges_exactly() {
    let base = owner(10, 1);
    let app = owner(55, 3);
    let screen = instance(base, 207, 4);
    let other = instance(base, 207, 5);
    let mut queue = IntentQueue::<2>::new();
    let home = OwnedNavIntent { source: screen, intent: NavIntent::Home };
    let launch = OwnedNavIntent { source: other, intent: NavIntent::Launch(SurfaceRef::new(app, 701)) };
    queue.push(home).unwrap();
    queue.push(launch).unwrap();
    assert_eq!(queue.push(home), Err(IntentQueueError::Capacity));
    assert!(queue.references_provider(app));
    assert!(!queue.references_provider(owner(55, 2)));
    assert_eq!(queue.purge_instance(screen), 1);
    assert_eq!(queue.len(), 1);
    assert_eq!(queue.purge_provider(app), 1);
    assert_eq!(queue.pop(), None);
}

#[test]
fn a_claimed_route_decodes_back_to_itself() {
    let mut table = CallbackRouteTable::<u32, 3>::new();
    for value in [5u32, 6, 7] {
        let route = table.claim(value).unwrap();
        assert_eq!(CallbackRoute::from_encoded(route.encoded()), Some(route));
    }
    assert_eq!(CallbackRoute::from_encoded(0), None);
    assert_eq!(CallbackRoute::from_encoded(7), None);
    assert_eq!(CallbackRoute::from_encoded(8), None);
    assert_eq!(CallbackRoute::from_encoded(9).unwrap().encoded(), 9);
}
