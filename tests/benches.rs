use mbedtls_benches::cli_args::{
    str_to_ec_group_id, str_to_md_type, EcGroupId, KeyType, MdType, ParseError,
};
use mbedtls_benches::engine::{
    ConfigError, Coordinator, CoordinatorStep, Rendezvous, RunConfig, WarmUp, Worker, WorkerStep,
    WARM_UP_CRYPTO_OPS,
};
use mbedtls_benches::measure::{finish_run, RunError, Throughput};
use mbedtls_benches::operation::{Operation, OperationType};
use mbedtls_benches::rng::TestRng;

/// Drives a worker's step machine on one thread, recording each call made.
fn drive_worker(num_ops: u32) -> (Worker, Vec<String>) {
    let op = Operation {
        operation_type: OperationType::Sign,
        before: || 0u32,
        operation: |s: &mut u32| *s += 1,
        after: |s: &mut u32| *s += 1000,
    };
    let mut log = Vec::new();
    let mut w = Worker::new(num_ops);
    let mut state = None;
    while !w.is_finished() {
        match w.next_step() {
            WorkerStep::Setup => {
                state = Some((op.before)());
                log.push("setup".to_string());
            }
            WorkerStep::Wait(r) => log.push(format!("{:?}", r)),
            WorkerStep::Execute => {
                (op.operation)(state.as_mut().unwrap());
                log.push("execute".to_string());
            }
            WorkerStep::Teardown => {
                (op.after)(state.as_mut().unwrap());
                log.push(format!("teardown {}", state.unwrap()));
            }
            WorkerStep::Finished => unreachable!(),
        }
        w.advance();
    }
    (w, log)
}

#[test]
fn config_rejects_zero_threads() {
    assert_eq!(RunConfig::new(0, 10).err(), Some(ConfigError::NoThreads));
    assert_eq!(RunConfig::new(0, 0).err(), Some(ConfigError::NoThreads));
}

#[test]
fn config_rejects_zero_ops() {
    assert_eq!(RunConfig::new(3, 0).err(), Some(ConfigError::NoOperations));
}

#[test]
fn config_totals() {
    let c = RunConfig::new(4, 1000).unwrap();
    assert_eq!(c.total_ops(), 4000);
    assert_eq!(c.party_count(), 5);
    let big = RunConfig::new(u32::MAX, u32::MAX).unwrap();
    assert_eq!(big.total_ops(), u32::MAX as u64 * u32::MAX as u64);
    assert_eq!(big.party_count(), u32::MAX as u64 + 1);
}

#[test]
fn worker_steps_in_order() {
    let mut w = Worker::new(2);
    let mut steps = Vec::new();
    while !w.is_finished() {
        steps.push(w.next_step());
        w.advance();
    }
    assert_eq!(
        steps,
        vec![
            WorkerStep::Setup,
            WorkerStep::Wait(Rendezvous::Start),
            WorkerStep::Wait(Rendezvous::Timer),
            WorkerStep::Execute,
            WorkerStep::Execute,
            WorkerStep::Wait(Rendezvous::End),
            WorkerStep::Wait(Rendezvous::Release),
            WorkerStep::Teardown,
        ]
    );
    assert_eq!(w.next_step(), WorkerStep::Finished);
    assert_eq!((w.setups(), w.executes(), w.teardowns()), (1, 2, 1));
}

#[test]
fn worker_calls_each_phase_on_one_state() {
    let (w, log) = drive_worker(3);
    assert_eq!((w.setups(), w.executes(), w.teardowns()), (1, 3, 1));
    assert_eq!(
        log,
        vec![
            "setup", "Start", "Timer", "execute", "execute", "execute", "End", "Release",
            "teardown 1003"
        ]
    );
}

#[test]
fn repeated_runs_make_the_same_calls() {
    let (w1, log1) = drive_worker(50);
    let (w2, log2) = drive_worker(50);
    assert_eq!(w1.executes(), 50);
    assert_eq!(w2.executes(), 50);
    assert_eq!(log1, log2);
}

#[test]
fn coordinator_steps_in_order() {
    let mut k = Coordinator::new();
    let mut steps = Vec::new();
    for _ in 0..7 {
        steps.push(k.next_step());
        k.advance();
    }
    assert_eq!(
        steps,
        vec![
            CoordinatorStep::Wait(Rendezvous::Start),
            CoordinatorStep::RecordStart,
            CoordinatorStep::Wait(Rendezvous::Timer),
            CoordinatorStep::Wait(Rendezvous::End),
            CoordinatorStep::RecordStop,
            CoordinatorStep::Wait(Rendezvous::Release),
            CoordinatorStep::Join,
        ]
    );
    assert_eq!(k.next_step(), CoordinatorStep::Finished);
}

#[test]
fn one_thread_one_second() {
    let c = RunConfig::new(1, 1000).unwrap();
    assert_eq!(
        finish_run(&c, &vec![true], 5, 5 + 1_000_000_000),
        Ok(Throughput { ops: 1000, elapsed_nanos: 1_000_000_000 })
    );
}

#[test]
fn four_threads_concurrently() {
    let c = RunConfig::new(4, 1000).unwrap();
    let ok = vec![true; 4];
    let fast = finish_run(&c, &ok, 0, 1_000_000_000).unwrap();
    assert_eq!(fast, Throughput { ops: 4000, elapsed_nanos: 1_000_000_000 });
    let serial = finish_run(&c, &ok, 0, 4_000_000_000).unwrap();
    assert_eq!(serial, Throughput { ops: 4000, elapsed_nanos: 4_000_000_000 });
}

#[test]
fn failed_worker_fails_the_run() {
    let c = RunConfig::new(4, 1000).unwrap();
    let ok = vec![true, true, false, true];
    assert_eq!(finish_run(&c, &ok, 0, 1_000_000_000), Err(RunError::WorkerFailed));
}

#[test]
fn missing_worker_fails_the_run() {
    let c = RunConfig::new(4, 1000).unwrap();
    assert_eq!(finish_run(&c, &vec![true; 3], 0, 10), Err(RunError::WorkerFailed));
}

#[test]
fn clock_errors() {
    let c = RunConfig::new(2, 10).unwrap();
    let ok = vec![true; 2];
    assert_eq!(finish_run(&c, &ok, 10, 9), Err(RunError::ClockWentBackwards));
    assert_eq!(finish_run(&c, &ok, 10, 10), Err(RunError::EmptyWindow));
}

#[test]
fn slow_window_keeps_its_fraction() {
    let c = RunConfig::new(1, 1).unwrap();
    let t = finish_run(&c, &vec![true], 0, 2_000_000_000).unwrap();
    assert_eq!(t, Throughput { ops: 1, elapsed_nanos: 2_000_000_000 });
    assert_eq!(t.ops as f64 * 1e9 / t.elapsed_nanos as f64, 0.5);
}

#[test]
fn added_delay_never_raises_throughput() {
    let c = RunConfig::new(2, 1000).unwrap();
    let ok = vec![true; 2];
    let mut last = finish_run(&c, &ok, 0, 1_000_000_000).unwrap();
    for delay_ms in 1..20u128 {
        let t = finish_run(&c, &ok, 0, 1_000_000_000 + delay_ms * 1000 * 1_000_000).unwrap();
        assert!(t.ops as u128 * last.elapsed_nanos <= last.ops as u128 * t.elapsed_nanos);
        last = t;
    }
}

#[test]
fn parse_operation_type() {
    assert_eq!(OperationType::parse("sign"), Ok(OperationType::Sign));
    assert_eq!(OperationType::parse("SiGn"), Ok(OperationType::Sign));
    assert_eq!(OperationType::parse("verify"), Err(ParseError::UnknownOperationType));
    assert_eq!(OperationType::Sign.name(), "Sign");
}

#[test]
fn parse_key_type() {
    assert_eq!(KeyType::parse("RSA"), Ok(KeyType::Rsa));
    assert_eq!(KeyType::parse("ecdsa"), Ok(KeyType::Ecdsa));
    assert_eq!(KeyType::parse("EcDsA"), Ok(KeyType::Ecdsa));
    assert_eq!(KeyType::parse("dsa"), Err(ParseError::UnknownKeyType));
    assert_eq!(KeyType::parse(""), Err(ParseError::UnknownKeyType));
    assert_eq!(KeyType::Ecdsa.name(), "Ecdsa");
}

#[test]
fn parse_md_type() {
    assert_eq!(str_to_md_type("sha256"), Ok(MdType::Sha256));
    assert_eq!(str_to_md_type("SHA384"), Ok(MdType::Sha384));
    assert_eq!(str_to_md_type("Sha512"), Ok(MdType::Sha512));
    assert_eq!(str_to_md_type("md5"), Err(ParseError::UnsupportedMdType));
}

#[test]
fn parse_curve() {
    assert_eq!(str_to_ec_group_id("nistp256"), Ok(EcGroupId::SecP256R1));
    assert_eq!(str_to_ec_group_id("SECP192R1"), Ok(EcGroupId::SecP192R1));
    assert_eq!(str_to_ec_group_id("NistP224"), Ok(EcGroupId::SecP224R1));
    assert_eq!(str_to_ec_group_id("secp384r1"), Ok(EcGroupId::SecP384R1));
    assert_eq!(str_to_ec_group_id("nistp521"), Ok(EcGroupId::SecP521R1));
    assert_eq!(str_to_ec_group_id("curve25519"), Err(ParseError::UnsupportedCurve));
}

#[test]
fn digest_lengths() {
    assert_eq!(MdType::Sha256.digest_len(), 32);
    assert_eq!(MdType::Sha384.digest_len(), 48);
    assert_eq!(MdType::Sha512.digest_len(), 64);
}

#[test]
fn random_bytes_fill_the_buffer() {
    let mut rng = TestRng::new(42);
    let mut buf = vec![0u8; 64];
    rng.fill_random_bytes(&mut buf);
    assert_eq!(buf.len(), 64);
    assert!(buf.iter().any(|b| *b != 0));
    let d = rng.random_digest(MdType::Sha384);
    assert_eq!(d.len(), 48);
}

#[test]
fn same_seed_same_bytes() {
    let mut a = TestRng::new(7);
    let mut b = TestRng::new(7);
    assert_eq!(a.random_digest(MdType::Sha512), b.random_digest(MdType::Sha512));
}

#[test]
fn warm_up_runs_a_fixed_count() {
    let mut w = WarmUp::new();
    let mut calls = 0u32;
    while !w.is_done() {
        calls += 1;
        w.advance();
    }
    assert_eq!(calls, 100);
    assert_eq!(w.done(), WARM_UP_CRYPTO_OPS);
}
