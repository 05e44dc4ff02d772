use typed_dispatch::dispatch::Dispatcher;
use typed_dispatch::extensions::Extensions;
use typed_dispatch::extract::PickUp;
use typed_dispatch::extract::PickUpOrDefault;

#[test]
fn pick_up_empty_tuple_always_succeeds() {
    let bag = Extensions::new();
    assert!(<() as PickUp>::pick_up(&bag).is_ok());
}

#[test]
fn pick_up_reports_first_missing_slot() {
    let mut bag = Extensions::new();
    bag.insert(42);
    let r = <(String, i32) as PickUp>::pick_up(&bag);
    assert_eq!(r.unwrap_err().slot, 0);
}

#[test]
fn pick_up_reports_second_slot_when_first_present() {
    let mut bag = Extensions::new();
    bag.insert(String::from("Universe"));
    let r = <(String, i32) as PickUp>::pick_up(&bag);
    assert_eq!(r.unwrap_err().slot, 1);
}

#[test]
fn pick_up_single_slot_reports_absence() {
    let bag = Extensions::new();
    let r = <(i32,) as PickUp>::pick_up(&bag);
    assert_eq!(r.unwrap_err().slot, 0);
}

#[test]
fn pick_up_resolves_full_tuple() {
    let mut bag = Extensions::new();
    bag.insert(String::from("Universe"));
    bag.insert(42);
    let r = <(String, i32) as PickUp>::pick_up(&bag);
    assert_eq!(r.unwrap(), (String::from("Universe"), 42));
}

#[test]
fn arity0_output_ignores_store_contents() {
    let d: Dispatcher<(), i32, _> = Dispatcher::new(|| 7);
    let empty = Extensions::new();
    let mut full = Extensions::new();
    full.insert(String::from("Universe"));
    full.insert(42);
    assert_eq!(d.run(&empty), d.run(&full));
    assert_eq!(d.run(&empty), 7);
}

#[test]
fn arity1_handler_receives_text() {
    let mut bag = Extensions::new();
    bag.insert(String::from("Universe"));
    let d: Dispatcher<(String,), String, _> = Dispatcher::new(|a: String| format!("handler[1]: {}", a));
    assert_eq!(d.run(&bag), "handler[1]: Universe");
}

#[test]
fn arity1_handler_receives_int() {
    let mut bag = Extensions::new();
    bag.insert(42);
    let d: Dispatcher<(i32,), String, _> = Dispatcher::new(|a: i32| format!("handler[1i]: {}", a));
    assert_eq!(d.run(&bag), "handler[1i]: 42");
}

#[test]
fn arity2_handler_receives_both_orders_swapped() {
    let mut bag = Extensions::new();
    bag.insert(String::from("Universe"));
    bag.insert(42);
    let d: Dispatcher<(i32, String), String, _> =
        Dispatcher::new(|a: i32, b: String| format!("handler[2s]: {}, {}", a, b));
    assert_eq!(d.run(&bag), "handler[2s]: 42, Universe");
}

#[test]
fn end_to_end_two_param_dispatch() {
    let mut bag = Extensions::new();
    bag.insert(String::from("Universe"));
    bag.insert(42);
    let d: Dispatcher<(String, i32), String, _> =
        Dispatcher::new(|a: String, b: i32| format!("handler[2]: {}, {}", a, b));
    assert_eq!(d.run(&bag), "handler[2]: Universe, 42");
}

#[test]
fn end_to_end_insertion_order_irrelevant() {
    let mut bag = Extensions::new();
    bag.insert(42);
    bag.insert(String::from("Universe"));
    let d: Dispatcher<(String, i32), String, _> =
        Dispatcher::new(|a: String, b: i32| format!("handler[2]: {}, {}", a, b));
    assert_eq!(d.run(&bag), "handler[2]: Universe, 42");
}

#[test]
fn defaulting_pick_up_fills_absent_slot() {
    let bag = Extensions::new();
    assert_eq!(<(u64,) as PickUpOrDefault>::pick_up_or_default(&bag), (0,));
}

#[test]
fn defaulting_dispatch_on_empty_store() {
    let bag = Extensions::new();
    let d: Dispatcher<(u64,), u64, _> = Dispatcher::new(|n: u64| n + 1);
    assert_eq!(d.run_or_default(&bag), 1);
}

#[test]
fn defaulting_dispatch_uses_stored_value() {
    let mut bag = Extensions::new();
    bag.insert(9u64);
    let d: Dispatcher<(u64, u64), u64, _> = Dispatcher::new(|a: u64, b: u64| a + b);
    assert_eq!(d.run_or_default(&bag), 18);
}
