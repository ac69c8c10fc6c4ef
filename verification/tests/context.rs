use cortex_m::ctxt::{Context, Local};

struct Main;

impl Context for Main {}

struct Handler7;

impl Context for Handler7 {}

#[test]
fn local_lends_its_initial_value() {
    let local: &'static Local<u32, Main> = Box::leak(Box::new(Local::new(5)));
    let token = Main;
    assert_eq!(*local.borrow(&token), 5);
}

#[test]
fn each_context_has_its_own_data() {
    let main: &'static Local<&str, Main> = Box::leak(Box::new(Local::new("main")));
    let handler: &'static Local<&str, Handler7> = Box::leak(Box::new(Local::new("irq7")));
    assert_eq!(*main.borrow(&Main), "main");
    assert_eq!(*handler.borrow(&Handler7), "irq7");
}

#[test]
fn local_contents_change_through_a_cell() {
    let local: &'static Local<std::cell::Cell<u16>, Main> =
        Box::leak(Box::new(Local::new(std::cell::Cell::new(0))));
    let token = Main;
    local.borrow(&token).set(300);
    assert_eq!(local.borrow(&token).get(), 300);
}
