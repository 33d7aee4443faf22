use swarm_app::bank::{Bank, Yield};
use swarm_app::production::{
    call_reinforcements, order_one, script_build, work_yards, Arrival, OrderKind, WING_MAX,
};
use swarm_app::state::Tick;

fn bank(materials: u32) -> Bank {
    Bank { materials, volatiles: 0, fuel: 0, data: 0 }
}

fn price(materials: u32) -> Yield {
    Yield { materials, volatiles: 0, data: 0 }
}

#[test]
fn an_order_is_paid_for_and_queued_or_neither() {
    let mut q = Vec::new();
    let mut b = bank(1000);
    assert!(order_one(&mut q, &mut b, OrderKind::Hull, price(400), true, 0));
    assert_eq!(q, vec![OrderKind::Hull]);
    assert_eq!(b.materials, 600);
    // Not enough left for a second: nothing taken, nothing queued.
    assert!(!order_one(&mut q, &mut b, OrderKind::Hull, price(700), true, 0));
    assert_eq!(q, vec![OrderKind::Hull]);
    assert_eq!(b.materials, 600);
}

#[test]
fn the_wing_counts_the_queue_as_well_as_what_is_flying() {
    let mut q = vec![OrderKind::Hull, OrderKind::Fighter, OrderKind::Platform, OrderKind::Fit];
    let mut b = bank(10_000);
    // Four flying and two promised is a full wing of six.
    assert!(!order_one(&mut q, &mut b, OrderKind::Hull, price(1), true, 4));
    assert!(!order_one(&mut q, &mut b, OrderKind::Platform, price(1), true, 4));
    assert_eq!(b.materials, 10_000);
    // A fighter takes no station.
    assert!(order_one(&mut q, &mut b, OrderKind::Fighter, price(1), true, 4));
    assert!(order_one(&mut q, &mut b, OrderKind::Hull, price(1), true, 3));
    assert_eq!(q.len(), 6);
    assert_eq!(WING_MAX, 6);
}

#[test]
fn a_module_needs_a_bay() {
    let mut q = Vec::new();
    let mut b = bank(100);
    assert!(!order_one(&mut q, &mut b, OrderKind::Fit, price(10), false, 0));
    assert_eq!(b.materials, 100);
    assert!(order_one(&mut q, &mut b, OrderKind::Fit, price(10), true, 6));
    assert_eq!(b.materials, 90);
}

#[test]
fn r_orders_two_and_stops_at_the_first_refusal() {
    let mut q = Vec::new();
    let mut b = bank(1000);
    assert_eq!(call_reinforcements(&mut q, &mut b, price(300), 0), 2);
    assert_eq!(q, vec![OrderKind::Hull, OrderKind::Hull]);
    assert_eq!(b.materials, 400);
    assert_eq!(call_reinforcements(&mut q, &mut b, price(300), 0), 1);
    assert_eq!(b.materials, 100);
    assert_eq!(call_reinforcements(&mut q, &mut b, price(300), 0), 0);
    let mut full = Vec::new();
    let mut rich = bank(1000);
    assert_eq!(call_reinforcements(&mut full, &mut rich, price(1), 5), 1);
    assert_eq!(rich.materials, 999);
}

#[test]
fn the_scripted_build_presses_once_at_its_tick() {
    let mut fired = false;
    assert_eq!(script_build(&Tick { tick: 10 }, 300, "fighter", &mut fired), None);
    assert_eq!(script_build(&Tick { tick: 301 }, 300, "fighter", &mut fired), Some(OrderKind::Fighter));
    assert!(fired);
    assert_eq!(script_build(&Tick { tick: 302 }, 300, "fighter", &mut fired), None);
    let mut fresh = false;
    assert_eq!(
        script_build(&Tick { tick: 300 }, 300, "terran_corvette", &mut fresh),
        Some(OrderKind::Hull)
    );
    let mut never = false;
    assert_eq!(script_build(&Tick { tick: 9000 }, 0, "fighter", &mut never), None);
    assert!(!never);
}

#[test]
fn finished_ships_take_the_next_stations_and_a_platform_takes_none() {
    let done = vec![
        OrderKind::Hull,
        OrderKind::Fighter,
        OrderKind::Platform,
        OrderKind::Fit,
        OrderKind::Hull,
    ];
    let mut fighters = 12;
    let arrived = work_yards(&done, 2, 5, &mut fighters, 3);
    assert_eq!(fighters, 16, "three hangar places and one fighter");
    assert_eq!(arrived, vec![Arrival::Hull(3), Arrival::Platform(4), Arrival::Hull(4)]);
    let mut none = 0;
    assert!(work_yards(&Vec::new(), 0, 0, &mut none, 0).is_empty());
    assert_eq!(none, 0);
}
