use knative_chaining::dispatch::{Delivery, Dispatch, Dispatcher, Failure, Policy};
use knative_chaining::envelope::Envelope;
use knative_chaining::step::Step;

const CHANNEL: &str = "http://two-to-three.example";

fn moved() -> Envelope {
    let mut envelope =
        Envelope::new("abc".to_string(), "step-one".to_string(), "http://one-to-two.example".to_string());
    envelope.set_data("application/json".to_string(), b"{\"k\":\"v\"}".to_vec());
    envelope
}

fn copy(id: &str) -> Envelope {
    let mut envelope = moved();
    envelope.set_id(id.to_string());
    envelope.set_type(CHANNEL.to_string());
    envelope
}

fn scattered(id: &str) -> Dispatch {
    Dispatch {
        dest: "http://one-to-two.example".to_string(),
        event: copy(id),
        delivery: Delivery::Detached,
    }
}

#[test]
fn a_dispatcher_keeps_its_configuration() {
    let dispatcher = Dispatcher::new(5, CHANNEL.to_string());
    assert_eq!(dispatcher.scale(), 5);
    assert_eq!(dispatcher.channel(), CHANNEL);
}

#[test]
fn a_fan_out_of_five_scatters_four_copies_and_returns_the_primary() {
    let dispatcher = Dispatcher::new(5, CHANNEL.to_string());
    let (primary, copies) = dispatcher.fan_out(&moved());
    assert_eq!(primary, copy("0"));
    assert_eq!(copies, vec![scattered("1"), scattered("2"), scattered("3"), scattered("4")]);
}

#[test]
fn a_fan_out_makes_as_many_events_as_the_scale() {
    for scale in 1..=40u32 {
        let dispatcher = Dispatcher::new(scale, CHANNEL.to_string());
        let (_primary, copies) = dispatcher.fan_out(&moved());
        assert_eq!(copies.len() as u32 + 1, scale);
    }
}

#[test]
fn the_copies_of_a_fan_out_are_numbered_from_one() {
    let dispatcher = Dispatcher::new(13, CHANNEL.to_string());
    let (primary, copies) = dispatcher.fan_out(&moved());
    assert_eq!(primary.id(), "0");
    let ids: Vec<&str> = copies.iter().map(|dispatch| dispatch.event.id()).collect();
    assert_eq!(ids, vec!["1", "2", "3", "4", "5", "6", "7", "8", "9", "10", "11", "12"]);
}

#[test]
fn the_copies_of_a_fan_out_have_distinct_ids() {
    let dispatcher = Dispatcher::new(120, CHANNEL.to_string());
    let (primary, copies) = dispatcher.fan_out(&moved());
    let mut ids: Vec<String> = copies.iter().map(|dispatch| dispatch.event.id().to_string()).collect();
    ids.push(primary.id().to_string());
    for i in 0..ids.len() {
        for j in (i + 1)..ids.len() {
            assert_ne!(ids[i], ids[j]);
        }
    }
}

#[test]
fn all_copies_of_a_fan_out_carry_the_fan_out_destination() {
    let dispatcher = Dispatcher::new(7, CHANNEL.to_string());
    let (primary, copies) = dispatcher.fan_out(&moved());
    assert_eq!(primary.ty(), CHANNEL);
    for dispatch in &copies {
        assert_eq!(dispatch.event.ty(), CHANNEL);
    }
}

#[test]
fn the_scattered_copies_are_posted_to_the_events_own_destination() {
    let dispatcher = Dispatcher::new(7, CHANNEL.to_string());
    let (_primary, copies) = dispatcher.fan_out(&moved());
    for dispatch in &copies {
        assert_eq!(dispatch.dest, "http://one-to-two.example");
        assert_eq!(dispatch.delivery, Delivery::Detached);
    }
}

#[test]
fn the_copies_of_a_fan_out_share_source_and_payload() {
    let dispatcher = Dispatcher::new(4, CHANNEL.to_string());
    let (primary, copies) = dispatcher.fan_out(&moved());
    let mut all: Vec<&Envelope> = copies.iter().map(|dispatch| &dispatch.event).collect();
    all.push(&primary);
    for envelope in all {
        assert_eq!(envelope.source(), "step-one");
        assert_eq!(envelope.datacontenttype(), Some("application/json"));
        assert_eq!(envelope.data(), Some(&b"{\"k\":\"v\"}".to_vec()));
    }
}

#[test]
fn a_fan_out_of_one_scatters_nothing() {
    let dispatcher = Dispatcher::new(1, CHANNEL.to_string());
    let (primary, copies) = dispatcher.fan_out(&moved());
    assert_eq!(primary, copy("0"));
    assert_eq!(copies, vec![]);
}

#[test]
fn a_fan_out_of_zero_still_returns_the_primary() {
    let dispatcher = Dispatcher::new(0, CHANNEL.to_string());
    let (primary, copies) = dispatcher.fan_out(&moved());
    assert_eq!(primary, copy("0"));
    assert_eq!(copies, vec![]);
}

#[test]
fn a_fan_out_leaves_the_event_as_it_was() {
    let dispatcher = Dispatcher::new(3, CHANNEL.to_string());
    let event = moved();
    let _ = dispatcher.fan_out(&event);
    assert_eq!(event, moved());
}

#[test]
fn a_forward_goes_to_the_destination_in_the_events_type() {
    let event = moved();
    assert_eq!(
        Dispatcher::forward(&event, Delivery::Awaited),
        Dispatch {
            dest: "http://one-to-two.example".to_string(),
            event: moved(),
            delivery: Delivery::Awaited,
        }
    );
    assert_eq!(
        Dispatcher::forward(&event, Delivery::Detached),
        Dispatch {
            dest: "http://one-to-two.example".to_string(),
            event: moved(),
            delivery: Delivery::Detached,
        }
    );
}

#[test]
fn a_failed_detached_delivery_is_dropped() {
    assert_eq!(Delivery::Detached.on_failure(), Failure::Dropped);
}

#[test]
fn a_failed_awaited_delivery_is_fatal() {
    assert_eq!(Delivery::Awaited.on_failure(), Failure::Fatal);
}

#[test]
fn each_step_has_its_dispatch_policy() {
    assert_eq!(Policy::of(Step::Entry), Some(Policy::FanOut));
    assert_eq!(Policy::of(Step::Second), Some(Policy::DirectForward));
    assert_eq!(Policy::of(Step::Third), Some(Policy::Terminal));
}

#[test]
fn no_policy_applies_at_the_end_of_the_chain() {
    assert_eq!(Policy::of(Step::Terminal), None);
}
