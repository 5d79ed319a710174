use substrate_lint::config::{
    BenchmarkingConfig, Config, MockUsageConfig, TerminologyConfig, TestSmellsConfig,
    ValidationOrderConfig,
};
use substrate_lint::context::FileContext;
use substrate_lint::rules::benchmarking::{
    BenchmarkFiles, BenchmarkForWeightFunction, BenchmarkVerification, ExtrinsicWithoutBenchmark,
    FileProbe,
};
use substrate_lint::rules::semantic::{SubmitTransactionLogTarget, ValidationBeforeHeavyRead};
use substrate_lint::rules::terminology::SpellingConventions;

const BAD_VAL001: &str = r#"use frame_support::{dispatch::DispatchResult, ensure, pallet_prelude::*};
use frame_system::pallet_prelude::*;

#[frame_support::pallet]
pub mod pallet {
    use super::*;

    #[pallet::config]
    pub trait Config: frame_system::Config {
        type RuntimeEvent: From<Event<Self>> + IsType<<Self as frame_system::Config>::RuntimeEvent>;
    }

    #[pallet::storage]
    pub type Members<T: Config> = StorageMap<_, Blake2_128Concat, T::AccountId, (), OptionQuery>;

    #[pallet::event]
    #[pallet::generate_deposit(pub(super) fn deposit_event)]
    pub enum Event<T: Config> {
        CandidateAccepted(T::AccountId),
    }

    #[pallet::error]
    pub enum Error<T> {
        SelfNomination,
        AlreadyMember,
    }

    #[pallet::call]
    impl<T: Config> Pallet<T> {
        #[pallet::call_index(0)]
        #[pallet::weight(10_000)]
        pub fn accept_candidate(origin: OriginFor<T>, candidate: T::AccountId) -> DispatchResult {
            let who = ensure_signed(origin)?;
            let existing = Members::<T>::get(&candidate);

            ensure!(candidate != who, Error::<T>::SelfNomination);
            ensure!(existing.is_none(), Error::<T>::AlreadyMember);

            Members::<T>::insert(&candidate, ());
            Self::deposit_event(Event::CandidateAccepted(candidate));
            Ok(())
        }
    }
}
"#;

const BAD_TRM001: &str = r#"use frame_support::{dispatch::DispatchResult, pallet_prelude::*};
use frame_system::pallet_prelude::*;

#[frame_support::pallet]
pub mod pallet {
    use super::*;

    #[pallet::config]
    pub trait Config: frame_system::Config {}

    #[pallet::call]
    impl<T: Config> Pallet<T> {
        #[pallet::call_index(0)]
        #[pallet::weight(10_000)]
        pub fn cleanup(origin: OriginFor<T>) -> DispatchResult {
            ensure_root(origin)?;

            // This optimisation avoids iterating over empty shards.
            log::info!("cleanup requested");

            Ok(())
        }
    }
}
"#;

const BAD_SEM014: &str = r#"// BAD: OCW submission logging omits target: LOG_TARGET.

fn submit_cleanup_xt<T: Config>(xt: OpaqueExtrinsic) {
    if let Err(e) = SubmitTransaction::<T, Call<T>>::submit_transaction(xt) {
        log::warn!(
            "Failed to submit cleanup transaction: {e:?}",
        );
    }
}
"#;

const WEIGHTS: &str = r#"use frame_support::weights::Weight;

pub trait WeightInfo {
    fn submit_proposal() -> Weight;
    fn close_proposal() -> Weight;
    fn sweep_expired(proposals: u32) -> Weight;
}
"#;

const BENCHMARKING: &str = r#"use crate::{Call, Event, Pallet};
use frame_benchmarking::v2::*;
use frame_system::RawOrigin;

#[benchmarks]
mod benchmarks {
    use super::*;

    #[benchmark]
    fn submit_proposal() {
        let caller = whitelisted_caller();
        let proposal = vec![1u8; 16];

        #[extrinsic_call]
        submit_proposal(RawOrigin::Signed(caller.clone()), proposal.clone());

        verify {
            assert_last_event::<Test>(Event::ProposalSubmitted { who: caller, proposal }.into());
        }
    }

    #[benchmark]
    fn close_proposal() {
        let caller = whitelisted_caller();
        let proposal_id = 3;

        Pallet::<Test>::seed_open_proposal(proposal_id, &caller);

        #[extrinsic_call]
        close_proposal(RawOrigin::Signed(caller.clone()), proposal_id);

        verify {
            assert_last_event::<Test>(Event::ProposalClosed { proposal_id, who: caller }.into());
        }
    }
}
"#;

const BAD_BEN003: &str = r#"// BAD: Extrinsic defined with call_index but no matching benchmark.

#[pallet::call]
impl<T: Config> Pallet<T> {
    #[pallet::call_index(0)]
    pub fn do_something(origin: OriginFor<T>) -> DispatchResult {
        let who = ensure_signed(origin)?;
        Data::<T>::put(42);
        Self::deposit_event(Event::SomethingDone { who });
        Ok(())
    }

    #[pallet::call_index(1)]
    pub fn do_another_thing(origin: OriginFor<T>, value: u32) -> DispatchResult {
        ensure_root(origin)?;
        Config::<T>::put(value);
        Ok(())
    }
}
"#;

const GOOD_BEN003: &str = r#"// GOOD: All extrinsics are just data — this file does not have #[pallet::call]
// so BEN003 should not fire.

pub fn helper_function() -> u32 {
    42
}

pub fn another_helper(x: u32) -> u32 {
    x * 2
}
"#;

const GOOD_BEN002: &str = r#"use crate::{mock::*, Call, Event, Pallet};
use frame_benchmarking::v2::*;
use frame_system::RawOrigin;

#[benchmarks]
mod benchmarks {
    use super::*;

    #[benchmark]
    fn submit_proposal() {
        let caller = whitelisted_caller();
        let payload = vec![7u8; 32];

        #[extrinsic_call]
        submit_proposal(RawOrigin::Signed(caller), payload.clone());

        verify {
            assert_last_event::<Test>(Event::ProposalSubmitted { who: caller, payload }.into());
        }
    }
}
"#;

fn fixture_config() -> Config {
    Config {
        rules: Vec::new(),
        terminology: TerminologyConfig {
            british_english: vec![("optimisation".to_string(), "optimization".to_string())],
            forbidden_terms: Vec::new(),
            check_strings: true,
            check_identifiers: false,
        },
        benchmarking: BenchmarkingConfig { verification_patterns: vec!["assert_last_event".to_string()] },
        mock_usage: MockUsageConfig { mock_patterns: Vec::new(), max_mock_expectations: 5 },
        test_smells: TestSmellsConfig { internal_field_patterns: Vec::new() },
        validation_order: ValidationOrderConfig {
            heavy_operations: vec!["::get(".to_string()],
            cheap_validations: vec!["ensure!(".to_string()],
        },
    }
}

fn fixture_ctx(path: &str, content: &str) -> FileContext {
    FileContext {
        path: path.to_string(),
        rel_path: path.to_string(),
        content: content.to_string(),
        is_rust: true,
        is_text: false,
        is_test_file: false,
        is_benchmark_file: false,
        is_proc_macro_target: false,
        in_cfg_gated_module: false,
    }
}

#[test]
fn fixture_val001_storage_read_before_ensure() {
    let found = ValidationBeforeHeavyRead.check(&fixture_ctx("pallets/x/src/lib.rs", BAD_VAL001), &fixture_config()).unwrap();
    assert_eq!(found.len(), 1);
    assert_eq!(found[0].line, 34);
    assert_eq!(found[0].end_line, Some(36));
}

#[test]
fn fixture_trm001_british_spelling_in_comment() {
    let found = SpellingConventions.check(&fixture_ctx("pallets/x/src/lib.rs", BAD_TRM001), &fixture_config()).unwrap();
    assert_eq!(found.len(), 1);
    assert_eq!(found[0].line, 18);
    assert_eq!(found[0].message, "Non-standard spelling `optimisation` — prefer `optimization`");
}

#[test]
fn fixture_sem014_warn_without_target() {
    let found = SubmitTransactionLogTarget.check(&fixture_ctx("pallets/x/src/lib.rs", BAD_SEM014), &fixture_config()).unwrap();
    assert_eq!(found.len(), 1);
    assert_eq!(found[0].line, 5);
    assert_eq!(found[0].end_line, Some(9));
}

#[test]
fn fixture_ben001_missing_sweep_benchmark() {
    let files = BenchmarkFiles {
        benchmarking: FileProbe::Read { text: BENCHMARKING.to_string(), ast_benchmarks: Vec::new() },
        benchmarks: FileProbe::Missing,
    };
    let found = BenchmarkForWeightFunction
        .check(&fixture_ctx("pallets/x/src/weights.rs", WEIGHTS), &fixture_config(), Vec::new(), files)
        .unwrap();
    assert_eq!(found.len(), 1);
    assert_eq!(found[0].line, 6);
    assert_eq!(found[0].message, "Weight function `sweep_expired` has no corresponding benchmark in `benchmarking.rs`");
}

#[test]
fn fixture_ben003_extrinsics_without_benchmarks() {
    let files = BenchmarkFiles {
        benchmarking: FileProbe::Read { text: BENCHMARKING.to_string(), ast_benchmarks: Vec::new() },
        benchmarks: FileProbe::Missing,
    };
    let found = ExtrinsicWithoutBenchmark
        .check(&fixture_ctx("pallets/x/src/lib.rs", BAD_BEN003), &fixture_config(), Vec::new(), files)
        .unwrap();
    let names: Vec<usize> = found.iter().map(|d| d.line).collect();
    assert_eq!(names, vec![6, 14]);
    let good = BenchmarkFiles { benchmarking: FileProbe::Missing, benchmarks: FileProbe::Missing };
    assert!(ExtrinsicWithoutBenchmark
        .check(&fixture_ctx("pallets/x/src/lib.rs", GOOD_BEN003), &fixture_config(), Vec::new(), good)
        .is_none());
}

#[test]
fn fixture_ben002_verified_benchmark_passes() {
    let mut ctx = fixture_ctx("pallets/x/src/benchmarking.rs", GOOD_BEN002);
    ctx.is_benchmark_file = true;
    assert!(BenchmarkVerification.check(&ctx, &fixture_config()).is_none());
}
