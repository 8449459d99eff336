use minecraft_essentials::async_trait_alias::{Async, AsyncSend, AsyncSendSync, AsyncSync};

fn plain<O>(_: &impl Async<O>) -> bool {
    true
}

fn sendable<O>(_: &impl AsyncSend<O>) -> bool {
    true
}

fn shareable<O>(_: &impl AsyncSync<O>) -> bool {
    true
}

fn both<O>(_: &impl AsyncSendSync<O>) -> bool {
    true
}

#[test]
fn ready_future_has_every_short_name() {
    let future = std::future::ready(7u8);
    assert!(plain::<u8>(&future));
    assert!(sendable::<u8>(&future));
    assert!(shareable::<u8>(&future));
    assert!(both::<u8>(&future));
}

#[test]
fn future_that_holds_an_rc_has_only_the_plain_name() {
    let held = std::rc::Rc::new(1u8);
    let future = std::future::ready(held);
    assert!(plain::<std::rc::Rc<u8>>(&future));
}
