use knative_chaining::context::InvocationContext;
use knative_chaining::dispatch::{Delivery, Dispatch, Failure};
use knative_chaining::envelope::Envelope;
use knative_chaining::router::{advance, process_event, Outcome, Router};
use knative_chaining::step::{RoutingError, Step};

const CHANNEL: &str = "http://two-to-three.example";

fn router(scale: u32) -> Router {
    Router::new(scale, CHANNEL.to_string())
}

fn event(id: &str, source: &str, ty: &str) -> Envelope {
    let mut envelope = Envelope::new(id.to_string(), source.to_string(), ty.to_string());
    envelope.set_data("text/plain".to_string(), b"payload".to_vec());
    envelope
}

fn post(dest: &str, event: Envelope, delivery: Delivery) -> Dispatch {
    Dispatch { dest: dest.to_string(), event, delivery }
}

/// Carries out the deliveries of an outcome against a sink that records what
/// happens in which order, and then lets the process end.
fn run_to_exit(outcome: &Outcome, log: &mut Vec<String>) {
    for dispatch in &outcome.dispatches {
        log.push(format!("started {} {}", dispatch.dest, dispatch.event.id()));
        if dispatch.delivery == Delivery::Awaited {
            log.push(format!("completed {} {}", dispatch.dest, dispatch.event.id()));
        }
    }
    log.push("exit".to_string());
}

#[test]
fn a_new_router_has_counted_nothing() {
    let router = router(5);
    assert_eq!(router.gathered(), 0);
    assert!(router.has_room());
    assert_eq!(router.dispatcher().scale(), 5);
    assert_eq!(router.dispatcher().channel(), CHANNEL);
}

#[test]
fn advance_writes_the_source_of_the_step() {
    assert_eq!(advance(event("a", "cli", "t"), Step::Entry), event("a", "step-one", "t"));
    assert_eq!(advance(event("a", "step-one", "t"), Step::Second), event("a", "step-two", "t"));
    assert_eq!(advance(event("a", "step-two", "t"), Step::Third), event("a", "step-three", "t"));
}

#[test]
fn advance_leaves_an_event_at_the_end_of_the_chain_alone() {
    assert_eq!(
        advance(event("a", "step-three", "t"), Step::Terminal),
        event("a", "step-three", "t")
    );
}

#[test]
fn a_service_pass_from_cli_fans_out_and_replies_with_the_primary() {
    let mut router = router(5);
    let outcome =
        process_event(&mut router, InvocationContext::Service, event("e", "cli", "http://a")).unwrap();
    assert_eq!(
        outcome,
        Outcome {
            step: Step::Entry,
            event: event("0", "step-one", CHANNEL),
            dispatches: vec![
                post("http://a", event("1", "step-one", CHANNEL), Delivery::Detached),
                post("http://a", event("2", "step-one", CHANNEL), Delivery::Detached),
                post("http://a", event("3", "step-one", CHANNEL), Delivery::Detached),
                post("http://a", event("4", "step-one", CHANNEL), Delivery::Detached),
            ],
            batch_complete: false,
        }
    );
    assert_eq!(router.gathered(), 0);
}

#[test]
fn a_job_pass_from_cli_fans_out_and_awaits_the_post_of_the_primary() {
    let mut router = router(3);
    let outcome =
        process_event(&mut router, InvocationContext::Job, event("e", "cli", "http://a")).unwrap();
    assert_eq!(
        outcome,
        Outcome {
            step: Step::Entry,
            event: event("0", "step-one", CHANNEL),
            dispatches: vec![
                post("http://a", event("1", "step-one", CHANNEL), Delivery::Detached),
                post("http://a", event("2", "step-one", CHANNEL), Delivery::Detached),
                post(CHANNEL, event("0", "step-one", CHANNEL), Delivery::Awaited),
            ],
            batch_complete: false,
        }
    );
}

#[test]
fn a_fan_out_pass_makes_as_many_events_as_the_scale() {
    for scale in 1..=25u32 {
        let mut router = router(scale);
        let outcome =
            process_event(&mut router, InvocationContext::Service, event("e", "cli", "http://a"))
                .unwrap();
        assert_eq!(outcome.event.id(), "0");
        assert_eq!(outcome.dispatches.len() as u32 + 1, scale);
        for (index, dispatch) in outcome.dispatches.iter().enumerate() {
            assert_eq!(dispatch.event.id(), format!("{}", index + 1));
            assert_eq!(dispatch.event.ty(), CHANNEL);
            assert_eq!(dispatch.dest, "http://a");
        }
    }
}

#[test]
fn a_service_pass_from_step_one_forwards_detached_and_replies() {
    let mut router = router(5);
    let outcome =
        process_event(&mut router, InvocationContext::Service, event("e", "step-one", "http://b"))
            .unwrap();
    assert_eq!(
        outcome,
        Outcome {
            step: Step::Second,
            event: event("e", "step-two", "http://b"),
            dispatches: vec![post("http://b", event("e", "step-two", "http://b"), Delivery::Detached)],
            batch_complete: false,
        }
    );
    assert_eq!(router.gathered(), 0);
}

#[test]
fn a_job_pass_from_step_one_awaits_its_forward() {
    let mut router = router(5);
    let outcome =
        process_event(&mut router, InvocationContext::Job, event("e", "step-one", "http://b"))
            .unwrap();
    assert_eq!(
        outcome,
        Outcome {
            step: Step::Second,
            event: event("e", "step-two", "http://b"),
            dispatches: vec![post("http://b", event("e", "step-two", "http://b"), Delivery::Awaited)],
            batch_complete: false,
        }
    );
}

#[test]
fn a_service_pass_from_step_two_dispatches_nothing_and_counts_the_run() {
    let mut router = router(5);
    let outcome =
        process_event(&mut router, InvocationContext::Service, event("e", "step-two", "http://c"))
            .unwrap();
    assert_eq!(
        outcome,
        Outcome {
            step: Step::Third,
            event: event("e", "step-three", "http://c"),
            dispatches: vec![],
            batch_complete: false,
        }
    );
    assert_eq!(router.gathered(), 1);
}

#[test]
fn a_job_pass_from_step_two_awaits_the_post_to_the_events_destination() {
    let mut router = router(5);
    let outcome =
        process_event(&mut router, InvocationContext::Job, event("e", "step-two", "dest-X")).unwrap();
    assert_eq!(
        outcome,
        Outcome {
            step: Step::Third,
            event: event("e", "step-three", "dest-X"),
            dispatches: vec![post("dest-X", event("e", "step-three", "dest-X"), Delivery::Awaited)],
            batch_complete: false,
        }
    );
    assert_eq!(router.gathered(), 1);
}

#[test]
fn a_job_does_not_exit_before_its_post_has_completed() {
    let mut router = router(5);
    let outcome =
        process_event(&mut router, InvocationContext::Job, event("e", "step-two", "dest-X")).unwrap();
    let mut log = Vec::new();
    run_to_exit(&outcome, &mut log);
    let completed = log.iter().position(|entry| entry == "completed dest-X e");
    let exit = log.iter().position(|entry| entry == "exit");
    assert_eq!(completed, Some(1));
    assert_eq!(exit, Some(2));
    assert_eq!(outcome.dispatches[0].delivery.on_failure(), Failure::Fatal);
}

#[test]
fn a_job_fan_out_awaits_only_the_post_of_the_primary() {
    let mut router = router(4);
    let outcome =
        process_event(&mut router, InvocationContext::Job, event("e", "cli", "http://a")).unwrap();
    let mut log = Vec::new();
    run_to_exit(&outcome, &mut log);
    assert_eq!(
        log,
        vec![
            "started http://a 1".to_string(),
            "started http://a 2".to_string(),
            "started http://a 3".to_string(),
            format!("started {} 0", CHANNEL),
            format!("completed {} 0", CHANNEL),
            "exit".to_string(),
        ]
    );
}

#[test]
fn a_service_awaits_no_delivery() {
    for source in ["cli", "step-one", "step-two", "step-three"] {
        let mut router = router(6);
        let outcome =
            process_event(&mut router, InvocationContext::Service, event("e", source, "http://a"))
                .unwrap();
        for dispatch in &outcome.dispatches {
            assert_eq!(dispatch.delivery, Delivery::Detached);
            assert_eq!(dispatch.delivery.on_failure(), Failure::Dropped);
        }
    }
}

#[test]
fn a_pass_at_the_end_of_the_chain_returns_the_event_unchanged() {
    for context in [InvocationContext::Service, InvocationContext::Job] {
        let mut router = router(5);
        let outcome =
            process_event(&mut router, context, event("e", "step-three", "http://d")).unwrap();
        assert_eq!(
            outcome,
            Outcome {
                step: Step::Terminal,
                event: event("e", "step-three", "http://d"),
                dispatches: vec![],
                batch_complete: false,
            }
        );
        assert_eq!(router.gathered(), 0);
    }
}

#[test]
fn a_pass_over_an_unknown_source_fails_and_names_it() {
    for context in [InvocationContext::Service, InvocationContext::Job] {
        let mut router = router(5);
        let result = process_event(&mut router, context, event("e", "step-four", "http://a"));
        assert_eq!(result, Err(RoutingError { source: "step-four".to_string() }));
        assert_eq!(router.gathered(), 0);
    }
}

#[test]
fn a_failed_pass_changes_nothing() {
    let mut router = router(2);
    process_event(&mut router, InvocationContext::Service, event("a", "step-two", "t")).unwrap();
    let result = process_event(&mut router, InvocationContext::Service, event("b", "", "t"));
    assert_eq!(result.unwrap_err().message(), "cloudevent: error: unrecognised source: ");
    assert_eq!(router.gathered(), 1);
    let outcome =
        process_event(&mut router, InvocationContext::Service, event("c", "step-two", "t")).unwrap();
    assert!(outcome.batch_complete);
    assert_eq!(router.gathered(), 2);
}

#[test]
fn the_payload_passes_through_every_pass() {
    for source in ["cli", "step-one", "step-two", "step-three"] {
        let mut router = router(3);
        let mut inbound = Envelope::new("e".to_string(), source.to_string(), "t".to_string());
        inbound.set_data("application/octet-stream".to_string(), vec![1, 2, 3, 0, 255]);
        let outcome = process_event(&mut router, InvocationContext::Job, inbound).unwrap();
        assert_eq!(outcome.event.datacontenttype(), Some("application/octet-stream"));
        assert_eq!(outcome.event.data(), Some(&vec![1u8, 2, 3, 0, 255]));
        for dispatch in &outcome.dispatches {
            assert_eq!(dispatch.event.datacontenttype(), Some("application/octet-stream"));
            assert_eq!(dispatch.event.data(), Some(&vec![1u8, 2, 3, 0, 255]));
        }
    }
}

#[test]
fn an_event_without_payload_passes_through_without_one() {
    let mut router = router(2);
    let inbound = Envelope::new("e".to_string(), "cli".to_string(), "t".to_string());
    let outcome = process_event(&mut router, InvocationContext::Service, inbound).unwrap();
    assert_eq!(outcome.event.datacontenttype(), None);
    assert_eq!(outcome.event.data(), None);
    assert_eq!(outcome.dispatches[0].event.data(), None);
}

#[test]
fn the_batch_is_complete_at_the_pass_that_reaches_the_scale() {
    let mut router = router(5);
    let mut signals = Vec::new();
    for pass in 1..=5u32 {
        let outcome =
            process_event(&mut router, InvocationContext::Service, event("e", "step-two", "t"))
                .unwrap();
        signals.push(outcome.batch_complete);
        assert_eq!(router.gathered(), pass);
    }
    assert_eq!(signals, vec![false, false, false, false, true]);
}

#[test]
fn the_batch_is_signalled_exactly_once() {
    for scale in 1..=10u32 {
        let mut router = router(scale);
        let mut signals = 0;
        for pass in 1..=(4 * scale) {
            let outcome =
                process_event(&mut router, InvocationContext::Job, event("e", "step-two", "t"))
                    .unwrap();
            if outcome.batch_complete {
                signals += 1;
                assert_eq!(pass, scale);
            }
        }
        assert_eq!(signals, 1);
        assert_eq!(router.gathered(), 4 * scale);
    }
}

#[test]
fn only_runs_of_the_convergent_step_are_counted() {
    let mut router = router(2);
    let sources = ["cli", "step-two", "step-one", "step-three", "nowhere", "step-two", "cli", "step-two"];
    let mut signals = Vec::new();
    let mut counts = Vec::new();
    for source in sources {
        let result = process_event(&mut router, InvocationContext::Service, event("e", source, "t"));
        signals.push(result.map(|outcome| outcome.batch_complete).unwrap_or(false));
        counts.push(router.gathered());
    }
    assert_eq!(signals, vec![false, false, false, false, false, true, false, false]);
    assert_eq!(counts, vec![0, 1, 1, 1, 1, 2, 2, 3]);
}

#[test]
fn a_router_with_scale_zero_never_signals_a_batch() {
    let mut router = router(0);
    for _ in 0..10 {
        let outcome =
            process_event(&mut router, InvocationContext::Service, event("e", "step-two", "t"))
                .unwrap();
        assert!(!outcome.batch_complete);
    }
}

#[test]
fn a_router_with_scale_zero_fans_out_into_the_primary_alone() {
    let mut router = router(0);
    let outcome =
        process_event(&mut router, InvocationContext::Service, event("e", "cli", "t")).unwrap();
    assert_eq!(outcome.event, event("0", "step-one", CHANNEL));
    assert_eq!(outcome.dispatches, vec![]);
}

#[test]
fn route_takes_the_step_as_given() {
    let mut router = router(2);
    let outcome = router.route(InvocationContext::Service, Step::Second, event("e", "cli", "t"));
    assert_eq!(
        outcome,
        Outcome {
            step: Step::Second,
            event: event("e", "step-two", "t"),
            dispatches: vec![post("t", event("e", "step-two", "t"), Delivery::Detached)],
            batch_complete: false,
        }
    );
}

#[test]
fn a_chain_runs_from_cli_to_the_end() {
    let mut router = router(3);
    let first =
        process_event(&mut router, InvocationContext::Service, event("e", "cli", "t")).unwrap();
    assert_eq!(first.event.source(), "step-one");
    let mut arrived = 0;
    let mut completed = 0;
    let mut copies: Vec<Envelope> = first.dispatches.into_iter().map(|d| d.event).collect();
    copies.push(first.event);
    for copy in copies {
        let second = process_event(&mut router, InvocationContext::Service, copy).unwrap();
        assert_eq!(second.event.source(), "step-two");
        let third = process_event(&mut router, InvocationContext::Service, second.event).unwrap();
        assert_eq!(third.event.source(), "step-three");
        arrived += 1;
        if third.batch_complete {
            completed += 1;
            assert_eq!(arrived, 3);
        }
        let last = process_event(&mut router, InvocationContext::Service, third.event).unwrap();
        assert_eq!(last.step, Step::Terminal);
        assert_eq!(last.event.source(), "step-three");
    }
    assert_eq!(completed, 1);
}
