//! The semantic and security rules, with the text scans they run on.
use vstd::prelude::*;
use crate::config::Config;
use crate::context::FileContext;
use crate::diagnostics::{
    make_diagnostic, models, report_of, into_report, Diagnostic, DiagnosticModel, RuleCategory,
    Severity,
};
use crate::rules::masks::{
    cfg_test_module_mask, is_masked_cfg_attribute, law_masks_cover_every_line,
    spec_cfg_test_module_mask, spec_is_masked_cfg_attribute,
};
use crate::rules::paths::{is_pure_test_path, spec_is_pure_test_path};
use crate::rules::LintRule;
use crate::text::{
    chars_of, contains, contains_str, find_byte, find_byte_exec, lemma_lines_total_len, utf8_fits,
    lines_of, lines_view, split_lines, starts_with, starts_with_str, total_len, trim, trim_exec,
};

verus! {

/// Lint rule `VAL001` (`validation-before-heavy-read`).
pub struct ValidationBeforeHeavyRead;

impl LintRule for ValidationBeforeHeavyRead {
    open spec fn spec_id(&self) -> Seq<char> {
        "VAL001"@
    }

    open spec fn spec_name(&self) -> Seq<char> {
        "validation-before-heavy-read"@
    }

    open spec fn spec_family(&self) -> Seq<char> {
        "semantic"@
    }

    fn id(&self) -> (r: &str) {
        "VAL001"
    }

    fn name(&self) -> (r: &str) {
        "validation-before-heavy-read"
    }

    fn family(&self) -> (r: &str) {
        "semantic"
    }
}

/// Lint rule `SEM002` (`prefer-collect-turbofish`).
pub struct PreferCollectTurbofish;

impl LintRule for PreferCollectTurbofish {
    open spec fn spec_id(&self) -> Seq<char> {
        "SEM002"@
    }

    open spec fn spec_name(&self) -> Seq<char> {
        "prefer-collect-turbofish"@
    }

    open spec fn spec_family(&self) -> Seq<char> {
        "semantic"@
    }

    fn id(&self) -> (r: &str) {
        "SEM002"
    }

    fn name(&self) -> (r: &str) {
        "prefer-collect-turbofish"
    }

    fn family(&self) -> (r: &str) {
        "semantic"
    }
}

/// Lint rule `SEM003` (`prefer-ref-iteration`).
pub struct PreferRefIteration;

impl LintRule for PreferRefIteration {
    open spec fn spec_id(&self) -> Seq<char> {
        "SEM003"@
    }

    open spec fn spec_name(&self) -> Seq<char> {
        "prefer-ref-iteration"@
    }

    open spec fn spec_family(&self) -> Seq<char> {
        "semantic"@
    }

    fn id(&self) -> (r: &str) {
        "SEM003"
    }

    fn name(&self) -> (r: &str) {
        "prefer-ref-iteration"
    }

    fn family(&self) -> (r: &str) {
        "semantic"
    }
}

/// Lint rule `SEM004` (`no-wildcard-imports`).
pub struct NoWildcardImports;

impl LintRule for NoWildcardImports {
    open spec fn spec_id(&self) -> Seq<char> {
        "SEM004"@
    }

    open spec fn spec_name(&self) -> Seq<char> {
        "no-wildcard-imports"@
    }

    open spec fn spec_family(&self) -> Seq<char> {
        "semantic"@
    }

    fn id(&self) -> (r: &str) {
        "SEM004"
    }

    fn name(&self) -> (r: &str) {
        "no-wildcard-imports"
    }

    fn family(&self) -> (r: &str) {
        "semantic"
    }
}

/// Lint rule `SEM005` (`parameterise-weight-functions`).
pub struct ParameteriseWeightFunctions;

impl LintRule for ParameteriseWeightFunctions {
    open spec fn spec_id(&self) -> Seq<char> {
        "SEM005"@
    }

    open spec fn spec_name(&self) -> Seq<char> {
        "parameterise-weight-functions"@
    }

    open spec fn spec_family(&self) -> Seq<char> {
        "semantic"@
    }

    fn id(&self) -> (r: &str) {
        "SEM005"
    }

    fn name(&self) -> (r: &str) {
        "parameterise-weight-functions"
    }

    fn family(&self) -> (r: &str) {
        "semantic"
    }
}

/// Lint rule `SEM006` (`dbweight-missing-pov`).
pub struct DbWeightMissingPov;

impl LintRule for DbWeightMissingPov {
    open spec fn spec_id(&self) -> Seq<char> {
        "SEM006"@
    }

    open spec fn spec_name(&self) -> Seq<char> {
        "dbweight-missing-pov"@
    }

    open spec fn spec_family(&self) -> Seq<char> {
        "semantic"@
    }

    fn id(&self) -> (r: &str) {
        "SEM006"
    }

    fn name(&self) -> (r: &str) {
        "dbweight-missing-pov"
    }

    fn family(&self) -> (r: &str) {
        "semantic"
    }
}

/// Lint rule `SEM007` (`runtime-debug-deprecated`).
pub struct RuntimeDebugDeprecated;

impl LintRule for RuntimeDebugDeprecated {
    open spec fn spec_id(&self) -> Seq<char> {
        "SEM007"@
    }

    open spec fn spec_name(&self) -> Seq<char> {
        "runtime-debug-deprecated"@
    }

    open spec fn spec_family(&self) -> Seq<char> {
        "semantic"@
    }

    fn id(&self) -> (r: &str) {
        "SEM007"
    }

    fn name(&self) -> (r: &str) {
        "runtime-debug-deprecated"
    }

    fn family(&self) -> (r: &str) {
        "semantic"
    }
}

/// Lint rule `SEM008` (`sp-std-deprecated`).
pub struct SpStdDeprecated;

impl LintRule for SpStdDeprecated {
    open spec fn spec_id(&self) -> Seq<char> {
        "SEM008"@
    }

    open spec fn spec_name(&self) -> Seq<char> {
        "sp-std-deprecated"@
    }

    open spec fn spec_family(&self) -> Seq<char> {
        "semantic"@
    }

    fn id(&self) -> (r: &str) {
        "SEM008"
    }

    fn name(&self) -> (r: &str) {
        "sp-std-deprecated"
    }

    fn family(&self) -> (r: &str) {
        "semantic"
    }
}

/// Lint rule `SEM009` (`redundant-contains-key-before-remove`).
pub struct RedundantContainsKeyBeforeRemove;

impl LintRule for RedundantContainsKeyBeforeRemove {
    open spec fn spec_id(&self) -> Seq<char> {
        "SEM009"@
    }

    open spec fn spec_name(&self) -> Seq<char> {
        "redundant-contains-key-before-remove"@
    }

    open spec fn spec_family(&self) -> Seq<char> {
        "semantic"@
    }

    fn id(&self) -> (r: &str) {
        "SEM009"
    }

    fn name(&self) -> (r: &str) {
        "redundant-contains-key-before-remove"
    }

    fn family(&self) -> (r: &str) {
        "semantic"
    }
}

/// Lint rule `SEM010` (`xor-as-exponentiation`).
pub struct XorAsExponentiation;

impl LintRule for XorAsExponentiation {
    open spec fn spec_id(&self) -> Seq<char> {
        "SEM010"@
    }

    open spec fn spec_name(&self) -> Seq<char> {
        "xor-as-exponentiation"@
    }

    open spec fn spec_family(&self) -> Seq<char> {
        "semantic"@
    }

    fn id(&self) -> (r: &str) {
        "SEM010"
    }

    fn name(&self) -> (r: &str) {
        "xor-as-exponentiation"
    }

    fn family(&self) -> (r: &str) {
        "semantic"
    }
}

/// Lint rule `SEM011` (`weight-zero-placeholder`).
pub struct WeightZeroPlaceholder;

impl LintRule for WeightZeroPlaceholder {
    open spec fn spec_id(&self) -> Seq<char> {
        "SEM011"@
    }

    open spec fn spec_name(&self) -> Seq<char> {
        "weight-zero-placeholder"@
    }

    open spec fn spec_family(&self) -> Seq<char> {
        "semantic"@
    }

    fn id(&self) -> (r: &str) {
        "SEM011"
    }

    fn name(&self) -> (r: &str) {
        "weight-zero-placeholder"
    }

    fn family(&self) -> (r: &str) {
        "semantic"
    }
}

/// Lint rule `VAL002` (`division-without-zero-guard`).
pub struct DivisionWithoutZeroGuard;

impl LintRule for DivisionWithoutZeroGuard {
    open spec fn spec_id(&self) -> Seq<char> {
        "VAL002"@
    }

    open spec fn spec_name(&self) -> Seq<char> {
        "division-without-zero-guard"@
    }

    open spec fn spec_family(&self) -> Seq<char> {
        "semantic"@
    }

    fn id(&self) -> (r: &str) {
        "VAL002"
    }

    fn name(&self) -> (r: &str) {
        "division-without-zero-guard"
    }

    fn family(&self) -> (r: &str) {
        "semantic"
    }
}

/// Lint rule `SEM012` (`allow-dead-code-in-pallet`).
pub struct AllowDeadCodeInPallet;

impl LintRule for AllowDeadCodeInPallet {
    open spec fn spec_id(&self) -> Seq<char> {
        "SEM012"@
    }

    open spec fn spec_name(&self) -> Seq<char> {
        "allow-dead-code-in-pallet"@
    }

    open spec fn spec_family(&self) -> Seq<char> {
        "semantic"@
    }

    fn id(&self) -> (r: &str) {
        "SEM012"
    }

    fn name(&self) -> (r: &str) {
        "allow-dead-code-in-pallet"
    }

    fn family(&self) -> (r: &str) {
        "semantic"
    }
}

/// Lint rule `SEM013` (`custom-invalidity-repr-u8`).
pub struct CustomInvalidityReprU8;

impl LintRule for CustomInvalidityReprU8 {
    open spec fn spec_id(&self) -> Seq<char> {
        "SEM013"@
    }

    open spec fn spec_name(&self) -> Seq<char> {
        "custom-invalidity-repr-u8"@
    }

    open spec fn spec_family(&self) -> Seq<char> {
        "semantic"@
    }

    fn id(&self) -> (r: &str) {
        "SEM013"
    }

    fn name(&self) -> (r: &str) {
        "custom-invalidity-repr-u8"
    }

    fn family(&self) -> (r: &str) {
        "semantic"
    }
}

/// Lint rule `SEM014` (`submit-transaction-log-target`).
pub struct SubmitTransactionLogTarget;

impl LintRule for SubmitTransactionLogTarget {
    open spec fn spec_id(&self) -> Seq<char> {
        "SEM014"@
    }

    open spec fn spec_name(&self) -> Seq<char> {
        "submit-transaction-log-target"@
    }

    open spec fn spec_family(&self) -> Seq<char> {
        "semantic"@
    }

    fn id(&self) -> (r: &str) {
        "SEM014"
    }

    fn name(&self) -> (r: &str) {
        "submit-transaction-log-target"
    }

    fn family(&self) -> (r: &str) {
        "semantic"
    }
}

/// Lint rule `SEM015` (`missing-weight-of-authorize`).
pub struct MissingWeightOfAuthorize;

impl LintRule for MissingWeightOfAuthorize {
    open spec fn spec_id(&self) -> Seq<char> {
        "SEM015"@
    }

    open spec fn spec_name(&self) -> Seq<char> {
        "missing-weight-of-authorize"@
    }

    open spec fn spec_family(&self) -> Seq<char> {
        "semantic"@
    }

    fn id(&self) -> (r: &str) {
        "SEM015"
    }

    fn name(&self) -> (r: &str) {
        "missing-weight-of-authorize"
    }

    fn family(&self) -> (r: &str) {
        "semantic"
    }
}

/// Lint rule `SEM016` (`missing-authorizecall-in-create-authorized-transaction`).
pub struct MissingAuthorizeCallInCreateAuthorizedTransaction;

impl LintRule for MissingAuthorizeCallInCreateAuthorizedTransaction {
    open spec fn spec_id(&self) -> Seq<char> {
        "SEM016"@
    }

    open spec fn spec_name(&self) -> Seq<char> {
        "missing-authorizecall-in-create-authorized-transaction"@
    }

    open spec fn spec_family(&self) -> Seq<char> {
        "semantic"@
    }

    fn id(&self) -> (r: &str) {
        "SEM016"
    }

    fn name(&self) -> (r: &str) {
        "missing-authorizecall-in-create-authorized-transaction"
    }

    fn family(&self) -> (r: &str) {
        "semantic"
    }
}

/// Lint rule `SEC001` (`unbounded-vec-in-extrinsic`).
pub struct UnboundedVecInExtrinsic;

impl LintRule for UnboundedVecInExtrinsic {
    open spec fn spec_id(&self) -> Seq<char> {
        "SEC001"@
    }

    open spec fn spec_name(&self) -> Seq<char> {
        "unbounded-vec-in-extrinsic"@
    }

    open spec fn spec_family(&self) -> Seq<char> {
        "security"@
    }

    fn id(&self) -> (r: &str) {
        "SEC001"
    }

    fn name(&self) -> (r: &str) {
        "unbounded-vec-in-extrinsic"
    }

    fn family(&self) -> (r: &str) {
        "security"
    }
}

/// Lint rule `SEC002` (`debug-assert-in-production`).
pub struct DebugAssertInProduction;

impl LintRule for DebugAssertInProduction {
    open spec fn spec_id(&self) -> Seq<char> {
        "SEC002"@
    }

    open spec fn spec_name(&self) -> Seq<char> {
        "debug-assert-in-production"@
    }

    open spec fn spec_family(&self) -> Seq<char> {
        "security"@
    }

    fn id(&self) -> (r: &str) {
        "SEC002"
    }

    fn name(&self) -> (r: &str) {
        "debug-assert-in-production"
    }

    fn family(&self) -> (r: &str) {
        "security"
    }
}

/// Lint rule `SEC003` (`missing-decode-depth-limit`).
pub struct MissingDecodeDepthLimit;

impl LintRule for MissingDecodeDepthLimit {
    open spec fn spec_id(&self) -> Seq<char> {
        "SEC003"@
    }

    open spec fn spec_name(&self) -> Seq<char> {
        "missing-decode-depth-limit"@
    }

    open spec fn spec_family(&self) -> Seq<char> {
        "security"@
    }

    fn id(&self) -> (r: &str) {
        "SEC003"
    }

    fn name(&self) -> (r: &str) {
        "missing-decode-depth-limit"
    }

    fn family(&self) -> (r: &str) {
        "security"
    }
}

/// Lint rule `SEC004` (`unsafe-weight-arithmetic`).
pub struct UnsafeWeightArithmetic;

impl LintRule for UnsafeWeightArithmetic {
    open spec fn spec_id(&self) -> Seq<char> {
        "SEC004"@
    }

    open spec fn spec_name(&self) -> Seq<char> {
        "unsafe-weight-arithmetic"@
    }

    open spec fn spec_family(&self) -> Seq<char> {
        "security"@
    }

    fn id(&self) -> (r: &str) {
        "SEC004"
    }

    fn name(&self) -> (r: &str) {
        "unsafe-weight-arithmetic"
    }

    fn family(&self) -> (r: &str) {
        "security"
    }
}

/// Lint rule `SEC005` (`expensive-weight-calculation`).
pub struct ExpensiveWeightCalculation;

impl LintRule for ExpensiveWeightCalculation {
    open spec fn spec_id(&self) -> Seq<char> {
        "SEC005"@
    }

    open spec fn spec_name(&self) -> Seq<char> {
        "expensive-weight-calculation"@
    }

    open spec fn spec_family(&self) -> Seq<char> {
        "security"@
    }

    fn id(&self) -> (r: &str) {
        "SEC005"
    }

    fn name(&self) -> (r: &str) {
        "expensive-weight-calculation"
    }

    fn family(&self) -> (r: &str) {
        "security"
    }
}

/// Lint rule `SEC006` (`unchecked-repatriate-reserved`).
pub struct UncheckedRepatriateReserved;

impl LintRule for UncheckedRepatriateReserved {
    open spec fn spec_id(&self) -> Seq<char> {
        "SEC006"@
    }

    open spec fn spec_name(&self) -> Seq<char> {
        "unchecked-repatriate-reserved"@
    }

    open spec fn spec_family(&self) -> Seq<char> {
        "security"@
    }

    fn id(&self) -> (r: &str) {
        "SEC006"
    }

    fn name(&self) -> (r: &str) {
        "unchecked-repatriate-reserved"
    }

    fn family(&self) -> (r: &str) {
        "security"
    }
}

/// Lint rule `SEC007` (`let-underscore-result`).
pub struct LetUnderscoreResult;

impl LintRule for LetUnderscoreResult {
    open spec fn spec_id(&self) -> Seq<char> {
        "SEC007"@
    }

    open spec fn spec_name(&self) -> Seq<char> {
        "let-underscore-result"@
    }

    open spec fn spec_family(&self) -> Seq<char> {
        "security"@
    }

    fn id(&self) -> (r: &str) {
        "SEC007"
    }

    fn name(&self) -> (r: &str) {
        "let-underscore-result"
    }

    fn family(&self) -> (r: &str) {
        "security"
    }
}

/// Lint rule `SEC008` (`panic-in-production`).
pub struct PanicInProduction;

impl LintRule for PanicInProduction {
    open spec fn spec_id(&self) -> Seq<char> {
        "SEC008"@
    }

    open spec fn spec_name(&self) -> Seq<char> {
        "panic-in-production"@
    }

    open spec fn spec_family(&self) -> Seq<char> {
        "security"@
    }

    fn id(&self) -> (r: &str) {
        "SEC008"
    }

    fn name(&self) -> (r: &str) {
        "panic-in-production"
    }

    fn family(&self) -> (r: &str) {
        "security"
    }
}

/// Lint rule `SEC009` (`raw-arithmetic-in-fallible`).
pub struct RawArithmeticInFallible;

impl LintRule for RawArithmeticInFallible {
    open spec fn spec_id(&self) -> Seq<char> {
        "SEC009"@
    }

    open spec fn spec_name(&self) -> Seq<char> {
        "raw-arithmetic-in-fallible"@
    }

    open spec fn spec_family(&self) -> Seq<char> {
        "security"@
    }

    fn id(&self) -> (r: &str) {
        "SEC009"
    }

    fn name(&self) -> (r: &str) {
        "raw-arithmetic-in-fallible"
    }

    fn family(&self) -> (r: &str) {
        "security"
    }
}

/// Lint rule `VAL003` (`storage-write-before-validation`).
pub struct StorageWriteBeforeValidation;

impl LintRule for StorageWriteBeforeValidation {
    open spec fn spec_id(&self) -> Seq<char> {
        "VAL003"@
    }

    open spec fn spec_name(&self) -> Seq<char> {
        "storage-write-before-validation"@
    }

    open spec fn spec_family(&self) -> Seq<char> {
        "semantic"@
    }

    fn id(&self) -> (r: &str) {
        "VAL003"
    }

    fn name(&self) -> (r: &str) {
        "storage-write-before-validation"
    }

    fn family(&self) -> (r: &str) {
        "semantic"
    }
}

/// Lint rule `SEC010` (`missing-transactional-in-hook`).
pub struct MissingTransactionalInHook;

impl LintRule for MissingTransactionalInHook {
    open spec fn spec_id(&self) -> Seq<char> {
        "SEC010"@
    }

    open spec fn spec_name(&self) -> Seq<char> {
        "missing-transactional-in-hook"@
    }

    open spec fn spec_family(&self) -> Seq<char> {
        "security"@
    }

    fn id(&self) -> (r: &str) {
        "SEC010"
    }

    fn name(&self) -> (r: &str) {
        "missing-transactional-in-hook"
    }

    fn family(&self) -> (r: &str) {
        "security"
    }
}

/// Lint rule `SEC011` (`storage-iteration-in-dispatchables`).
pub struct StorageIterationInDispatchables;

impl LintRule for StorageIterationInDispatchables {
    open spec fn spec_id(&self) -> Seq<char> {
        "SEC011"@
    }

    open spec fn spec_name(&self) -> Seq<char> {
        "storage-iteration-in-dispatchables"@
    }

    open spec fn spec_family(&self) -> Seq<char> {
        "security"@
    }

    fn id(&self) -> (r: &str) {
        "SEC011"
    }

    fn name(&self) -> (r: &str) {
        "storage-iteration-in-dispatchables"
    }

    fn family(&self) -> (r: &str) {
        "security"
    }
}

/// Lint rule `SEC012` (`unbounded-clear-prefix`).
pub struct UnboundedClearPrefix;

impl LintRule for UnboundedClearPrefix {
    open spec fn spec_id(&self) -> Seq<char> {
        "SEC012"@
    }

    open spec fn spec_name(&self) -> Seq<char> {
        "unbounded-clear-prefix"@
    }

    open spec fn spec_family(&self) -> Seq<char> {
        "security"@
    }

    fn id(&self) -> (r: &str) {
        "SEC012"
    }

    fn name(&self) -> (r: &str) {
        "unbounded-clear-prefix"
    }

    fn family(&self) -> (r: &str) {
        "security"
    }
}

/// Lint rule `SEC013` (`unbounded-storage-collections`).
pub struct UnboundedStorageCollections;

impl LintRule for UnboundedStorageCollections {
    open spec fn spec_id(&self) -> Seq<char> {
        "SEC013"@
    }

    open spec fn spec_name(&self) -> Seq<char> {
        "unbounded-storage-collections"@
    }

    open spec fn spec_family(&self) -> Seq<char> {
        "security"@
    }

    fn id(&self) -> (r: &str) {
        "SEC013"
    }

    fn name(&self) -> (r: &str) {
        "unbounded-storage-collections"
    }

    fn family(&self) -> (r: &str) {
        "security"
    }
}

/// Lint rule `SEC014` (`identity-hasher-on-common-keys`).
pub struct IdentityHasherOnCommonKeys;

impl LintRule for IdentityHasherOnCommonKeys {
    open spec fn spec_id(&self) -> Seq<char> {
        "SEC014"@
    }

    open spec fn spec_name(&self) -> Seq<char> {
        "identity-hasher-on-common-keys"@
    }

    open spec fn spec_family(&self) -> Seq<char> {
        "security"@
    }

    fn id(&self) -> (r: &str) {
        "SEC014"
    }

    fn name(&self) -> (r: &str) {
        "identity-hasher-on-common-keys"
    }

    fn family(&self) -> (r: &str) {
        "security"
    }
}

/// Lint rule `SEC015` (`dispatch-bypass-filter-in-production`).
pub struct DispatchBypassFilterInProduction;

impl LintRule for DispatchBypassFilterInProduction {
    open spec fn spec_id(&self) -> Seq<char> {
        "SEC015"@
    }

    open spec fn spec_name(&self) -> Seq<char> {
        "dispatch-bypass-filter-in-production"@
    }

    open spec fn spec_family(&self) -> Seq<char> {
        "security"@
    }

    fn id(&self) -> (r: &str) {
        "SEC015"
    }

    fn name(&self) -> (r: &str) {
        "dispatch-bypass-filter-in-production"
    }

    fn family(&self) -> (r: &str) {
        "security"
    }
}

/// Lint rule `SEC016` (`missing-storage-version-check-in-runtime-upgrade`).
pub struct MissingStorageVersionCheckInRuntimeUpgrade;

impl LintRule for MissingStorageVersionCheckInRuntimeUpgrade {
    open spec fn spec_id(&self) -> Seq<char> {
        "SEC016"@
    }

    open spec fn spec_name(&self) -> Seq<char> {
        "missing-storage-version-check-in-runtime-upgrade"@
    }

    open spec fn spec_family(&self) -> Seq<char> {
        "security"@
    }

    fn id(&self) -> (r: &str) {
        "SEC016"
    }

    fn name(&self) -> (r: &str) {
        "missing-storage-version-check-in-runtime-upgrade"
    }

    fn family(&self) -> (r: &str) {
        "security"
    }
}

/// Lint rule `SEC017` (`vec-in-events`).
pub struct VecInEvents;

impl LintRule for VecInEvents {
    open spec fn spec_id(&self) -> Seq<char> {
        "SEC017"@
    }

    open spec fn spec_name(&self) -> Seq<char> {
        "vec-in-events"@
    }

    open spec fn spec_family(&self) -> Seq<char> {
        "security"@
    }

    fn id(&self) -> (r: &str) {
        "SEC017"
    }

    fn name(&self) -> (r: &str) {
        "vec-in-events"
    }

    fn family(&self) -> (r: &str) {
        "security"
    }
}

/// Lint rule `SEC018` (`missing-weight-for-unbounded-input`).
pub struct MissingWeightForUnboundedInput;

impl LintRule for MissingWeightForUnboundedInput {
    open spec fn spec_id(&self) -> Seq<char> {
        "SEC018"@
    }

    open spec fn spec_name(&self) -> Seq<char> {
        "missing-weight-for-unbounded-input"@
    }

    open spec fn spec_family(&self) -> Seq<char> {
        "security"@
    }

    fn id(&self) -> (r: &str) {
        "SEC018"
    }

    fn name(&self) -> (r: &str) {
        "missing-weight-for-unbounded-input"
    }

    fn family(&self) -> (r: &str) {
        "security"
    }
}


// ---------------------------------------------------------------------------
// Stripping string literals and line comments
// ---------------------------------------------------------------------------

/// The scanner state of `strip_strings_and_line_comments`.
pub struct StripState {
    pub in_string: bool,
    pub escaped: bool,
    /// A `//` comment was reached; the rest of the line is dropped.
    pub done: bool,
}

/// One character of `strip_strings_and_line_comments`: the state after the
/// character at index `i` of `s` and what it adds to the output. A string
/// literal's quotes each become a space and its contents are dropped; a `//`
/// outside a string ends the output.
pub open spec fn strip_step(s: Seq<char>, i: int, st: StripState) -> (StripState, Seq<char>) {
    let c = s[i];
    if st.done {
        (st, seq![])
    } else if st.in_string {
        if st.escaped {
            (StripState { escaped: false, ..st }, seq![])
        } else if c == '\\' {
            (StripState { escaped: true, ..st }, seq![])
        } else if c == '"' {
            (StripState { in_string: false, ..st }, seq![' '])
        } else {
            (st, seq![])
        }
    } else if c == '"' {
        (StripState { in_string: true, ..st }, seq![' '])
    } else if c == '/' && i + 1 < s.len() && s[i + 1] == '/' {
        (StripState { done: true, ..st }, seq![])
    } else {
        (st, seq![c])
    }
}

/// `strip_strings_and_line_comments` over the first `n` characters of `s`.
pub open spec fn strip_run(s: Seq<char>, n: int) -> (StripState, Seq<char>)
    decreases n,
{
    if n <= 0 {
        (StripState { in_string: false, escaped: false, done: false }, seq![])
    } else {
        let prev = strip_run(s, n - 1);
        let step = strip_step(s, n - 1, prev.0);
        (step.0, prev.1 + step.1)
    }
}

/// `line` with string literals blanked to a space per quote and a trailing
/// `//` comment cut off.
pub open spec fn spec_strip(line: Seq<char>) -> Seq<char> {
    strip_run(line, line.len() as int).1
}

/// `line` with the contents of string literals removed (each quote becomes
/// a space) and any `//` comment outside a string cut off.
pub fn strip_strings_and_line_comments(line: &Vec<char>) -> (r: Vec<char>)
    ensures
        r@ == spec_strip(line@),
{
    let mut out: Vec<char> = Vec::new();
    let mut in_string = false;
    let mut escaped = false;
    let mut i: usize = 0;
    while i < line.len()
        invariant
            i <= line.len(),
            ({
                let st = strip_run(line@, i as int);
                &&& out@ == st.1
                &&& st.0.in_string == in_string
                &&& st.0.escaped == escaped
                &&& !st.0.done
            }),
        decreases line.len() - i,
    {
        let ch = line[i];
        if in_string {
            if escaped {
                escaped = false;
            } else if ch == '\\' {
                escaped = true;
            } else if ch == '"' {
                in_string = false;
                out.push(' ');
            }
            i += 1;
            continue;
        }
        if ch == '"' {
            in_string = true;
            out.push(' ');
            i += 1;
            continue;
        }
        if ch == '/' && i + 1 < line.len() && line[i + 1] == '/' {
            proof {
                lemma_strip_done(line@, i as int + 1);
            }
            return out;
        }
        out.push(ch);
        i += 1;
    }
    out
}

/// Once the scan reached a comment, the output does not change.
proof fn lemma_strip_done(s: Seq<char>, n: int)
    requires
        1 <= n <= s.len(),
        strip_run(s, n).0.done,
    ensures
        strip_run(s, s.len() as int) == strip_run(s, n),
    decreases s.len() - n,
{
    if n < s.len() {
        assert(strip_run(s, n + 1).1 =~= strip_run(s, n).1);
        lemma_strip_done(s, n + 1);
    }
}

// ---------------------------------------------------------------------------
// Files that production rules skip
// ---------------------------------------------------------------------------

/// One of the first 80 lines is a crate-level `#![cfg(...)]` that, read as
/// an item attribute, masks the crate from production.
pub open spec fn spec_has_crate_level_non_production_cfg(lines: Seq<Seq<char>>) -> bool {
    exists|i: int|
        0 <= i < lines.len() && i < 80 && #[trigger] starts_with(trim(lines[i]), "#![cfg("@)
            && spec_is_masked_cfg_attribute(seq!['#', '['] + trim(lines[i]).skip(3))
}

/// Whether the first 80 lines hold a crate-level non-production `cfg`.
pub fn has_crate_level_non_production_cfg(lines: &Vec<Vec<char>>) -> (r: bool)
    ensures
        r == spec_has_crate_level_non_production_cfg(lines_view(lines@)),
{
    let ghost lv = lines_view(lines@);
    proof {
        reveal_strlit("#![cfg(");
    }
    let mut i: usize = 0;
    while i < lines.len() && i < 80
        invariant
            i <= lines@.len(),
            lv == lines_view(lines@),
            forall|j: int|
                0 <= j < i ==> !(#[trigger] starts_with(trim(lv[j]), "#![cfg("@)
                    && spec_is_masked_cfg_attribute(seq!['#', '['] + trim(lv[j]).skip(3))),
        decreases lines.len() - i,
    {
        let t = trim_exec(&lines[i]);
        assert(lv[i as int] == lines[i as int]@);
        proof {
            reveal_strlit("#![cfg(");
        }
        if starts_with_str(&t, "#![cfg(") {
            let mut item: Vec<char> = Vec::new();
            item.push('#');
            item.push('[');
            let rest = crate::text::copy_range(&t, 3, t.len());
            let item_attr = crate::text::concat(&item, &rest);
            assert(item_attr@ =~= seq!['#', '['] + t@.skip(3));
            if is_masked_cfg_attribute(&item_attr) {
                return true;
            }
        }
        i += 1;
    }
    false
}

/// A production-only rule does not look at this file: not Rust, a benchmark
/// or test file, part of a proc-macro crate, in a test location, masked at
/// crate level, or a module declared under a test `cfg`.
pub open spec fn spec_should_skip_production_rule(ctx: &FileContext) -> bool {
    ||| !ctx.is_rust
    ||| ctx.is_benchmark_file
    ||| ctx.is_test_file
    ||| ctx.is_proc_macro_target
    ||| spec_is_pure_test_path(ctx.path@)
    ||| spec_has_crate_level_non_production_cfg(lines_of(ctx.content@))
    ||| ctx.in_cfg_gated_module
}

/// Whether production-only rules skip the file.
pub fn should_skip_production_rule(ctx: &FileContext) -> (r: bool)
    ensures
        r == spec_should_skip_production_rule(ctx),
{
    if !ctx.is_rust || ctx.is_benchmark_file || ctx.is_test_file || ctx.is_proc_macro_target {
        return true;
    }
    if is_pure_test_path(ctx.path.as_str()) {
        return true;
    }
    let lines = split_lines(&chars_of(ctx.content.as_str()));
    assert(lines_view(lines@) == lines@.map_values(|l: Vec<char>| l@));
    has_crate_level_non_production_cfg(&lines) || ctx.in_cfg_gated_module
}

/// The lines of a file's text.
pub fn content_lines(ctx: &FileContext) -> (r: Vec<Vec<char>>)
    requires
        ctx.content@.len() <= isize::MAX,
    ensures
        lines_view(r@) == lines_of(ctx.content@),
        total_len(lines_view(r@)) <= isize::MAX,
        forall|i: int| 0 <= i < r@.len() ==> r@[i]@.len() <= isize::MAX,
        forall|i: int| 0 <= i < r@.len() ==> r@[i]@.len() <= ctx.content@.len(),
        r@.len() <= isize::MAX,
{
    let lines = split_lines(&chars_of(ctx.content.as_str()));
    proof {
        crate::text::lemma_lines_count(ctx.content@);
        lemma_lines_total_len(ctx.content@);
        assert(lines_view(lines@) == lines@.map_values(|l: Vec<char>| l@));
        assert forall|i: int| 0 <= i < lines@.len() implies lines@[i]@.len() <= ctx.content@.len() by {
            crate::text::lemma_line_len_le_total(lines_view(lines@), i);
        }
    }
    lines
}

// ---------------------------------------------------------------------------
// SEM008: `sp_std` is deprecated
// ---------------------------------------------------------------------------

/// The diagnostic of SEM008 for line index `idx` whose stripped text has
/// `sp_std::` at byte `col`.
pub open spec fn sp_std_model(file: Seq<char>, sev: Severity, idx: int, col: Option<nat>) -> DiagnosticModel {
    DiagnosticModel {
        rule_id: "SEM008"@,
        rule_name: "sp-std-deprecated"@,
        category: RuleCategory::Semantic,
        severity: sev,
        file,
        line: (idx + 1) as nat,
        column: match col {
            Some(b) => Some(b + 1),
            None => None,
        },
        end_line: None,
        message: "`sp_std` is deprecated — use `alloc` instead"@,
        explanation: "`sp_std` was deprecated in polkadot-sdk. Use `extern crate alloc; use alloc::vec::Vec;` for `no_std` compatibility."@,
        suggestion: Some("Replace `sp_std::vec::Vec` with `alloc::vec::Vec`"@),
    }
}

/// The SEM008 diagnostics of `lines`: one per line whose code, outside
/// strings and comments, names `sp_std::`.
pub open spec fn sp_std_found(lines: Seq<Seq<char>>, file: Seq<char>, sev: Severity) -> Seq<
    DiagnosticModel,
>
    decreases lines.len(),
{
    if lines.len() == 0 {
        seq![]
    } else {
        let prev = sp_std_found(lines.drop_last(), file, sev);
        let san = spec_strip(lines.last());
        if contains(san, "sp_std::"@) {
            prev.push(
                sp_std_model(file, sev, lines.len() - 1, find_byte(san, "sp_std::"@)),
            )
        } else {
            prev
        }
    }
}

/// Every line whose code, outside strings and comments, names `sp_std::` is
/// reported once, with the deprecation message, whether or not it is a
/// `use` item; no other line is reported; and findings come in line order.
pub proof fn law_sem008_reports_each_sp_std_line_once(lines: Seq<Seq<char>>, file: Seq<char>, sev: Severity)
    ensures
        forall|i: int|
            0 <= i < lines.len() && contains(spec_strip(#[trigger] lines[i]), "sp_std::"@) ==> exists|k: int|
                0 <= k < sp_std_found(lines, file, sev).len() && sp_std_found(lines, file, sev)[k].line == i + 1
                    && sp_std_found(lines, file, sev)[k].message == "`sp_std` is deprecated — use `alloc` instead"@,
        forall|k: int|
            0 <= k < sp_std_found(lines, file, sev).len() ==> {
                let l = #[trigger] sp_std_found(lines, file, sev)[k].line;
                1 <= l <= lines.len() && contains(spec_strip(lines[l - 1]), "sp_std::"@)
            },
        forall|k1: int, k2: int|
            0 <= k1 < k2 < sp_std_found(lines, file, sev).len() ==> #[trigger] sp_std_found(lines, file, sev)[k1].line
                < #[trigger] sp_std_found(lines, file, sev)[k2].line,
    decreases lines.len(),
{
    if lines.len() > 0 {
        let init = lines.drop_last();
        let prev = sp_std_found(init, file, sev);
        let out = sp_std_found(lines, file, sev);
        law_sem008_reports_each_sp_std_line_once(init, file, sev);
        assert forall|i: int|
            0 <= i < lines.len() && contains(spec_strip(#[trigger] lines[i]), "sp_std::"@) implies exists|k: int|
                0 <= k < out.len() && out[k].line == i + 1
                    && out[k].message == "`sp_std` is deprecated — use `alloc` instead"@ by {
            if i < lines.len() - 1 {
                assert(init[i] == lines[i]);
                let k = choose|k: int|
                    0 <= k < prev.len() && prev[k].line == i + 1
                        && prev[k].message == "`sp_std` is deprecated — use `alloc` instead"@;
                assert(out[k] == prev[k]);
            } else {
                assert(out[out.len() - 1].line == i + 1);
            }
        }
        assert forall|k: int| 0 <= k < out.len() implies {
            let l = #[trigger] out[k].line;
            1 <= l <= lines.len() && contains(spec_strip(lines[l - 1]), "sp_std::"@)
        } by {
            if k < prev.len() {
                assert(out[k] == prev[k]);
                assert(init[prev[k].line - 1] == lines[prev[k].line - 1]);
            }
        }
        assert forall|k1: int, k2: int| 0 <= k1 < k2 < out.len() implies #[trigger] out[k1].line < #[trigger] out[k2].line by {
            if k2 < prev.len() {
                assert(out[k1] == prev[k1]);
                assert(out[k2] == prev[k2]);
            } else {
                assert(out[k1] == prev[k1]);
                assert(prev[k1].line <= init.len());
            }
        }
    }
}

/// A line with no quote and no `//` that names `sp_std::` anywhere is
/// reported.
pub proof fn law_sem008_plain_line_is_reported(lines: Seq<Seq<char>>, file: Seq<char>, sev: Severity, i: int)
    requires
        0 <= i < lines.len(),
        has_no_quote(lines[i]),
        has_no_double_slash(lines[i]),
        contains(lines[i], "sp_std::"@),
    ensures
        exists|k: int|
            0 <= k < sp_std_found(lines, file, sev).len() && sp_std_found(lines, file, sev)[k].line == i + 1,
{
    law_strip_idempotent(lines[i]);
    law_sem008_reports_each_sp_std_line_once(lines, file, sev);
    assert(contains(spec_strip(lines[i]), "sp_std::"@));
}

impl SpStdDeprecated {
    /// Reports every line that uses `sp_std::` in code.
    pub fn check(&self, ctx: &FileContext, config: &Config) -> (r: Option<Vec<Diagnostic>>)
        requires
            ctx.content@.len() <= isize::MAX,
            utf8_fits(ctx.content@),
        ensures
            !ctx.is_rust ==> r is None,
            ctx.is_rust ==> report_of(
                sp_std_found(
                    lines_of(ctx.content@),
                    ctx.path@,
                    config.spec_rule_severity("SEM008"@, Severity::Warning),
                ),
                r,
            ),
    {
        if !ctx.is_rust {
            return None;
        }
        let lines = content_lines(ctx);
        let ghost lv = lines_view(lines@);
        let severity = config.rule_severity(self.id(), Severity::Warning);
        let pat = chars_of("sp_std::");
        let mut diagnostics: Vec<Diagnostic> = Vec::new();
        let mut idx: usize = 0;
        assert(lv.take(0) =~= Seq::<Seq<char>>::empty());
        while idx < lines.len()
            invariant
                idx <= lines@.len(),
                lv == lines_view(lines@),
                forall|i: int| 0 <= i < lines@.len() ==> lines@[i]@.len() <= ctx.content@.len(),
                utf8_fits(ctx.content@),
                pat@ == "sp_std::"@,
                models(diagnostics@) == sp_std_found(lv.take(idx as int), ctx.path@, severity),
            decreases lines.len() - idx,
        {
            assert(lv.take(idx + 1).drop_last() =~= lv.take(idx as int));
            assert(lv[idx as int] == lines[idx as int]@);
            let sanitized = strip_strings_and_line_comments(&lines[idx]);
            proof {
                lemma_strip_len(lines[idx as int]@);
            }
            if crate::text::contains_exec(&sanitized, &pat) {
                let column = match find_byte_exec(&sanitized, &pat) {
                    Some(b) => Some(b + 1),
                    None => None,
                };
                let d = make_diagnostic(
                    self.id(),
                    self.name(),
                    RuleCategory::Semantic,
                    severity,
                    &ctx.path,
                    idx + 1,
                    column,
                    None,
                    "`sp_std` is deprecated — use `alloc` instead".to_owned(),
                    "`sp_std` was deprecated in polkadot-sdk. Use `extern crate alloc; use alloc::vec::Vec;` for `no_std` compatibility.",
                    Some("Replace `sp_std::vec::Vec` with `alloc::vec::Vec`".to_owned()),
                );
                let ghost before = diagnostics@;
                diagnostics.push(d);
                assert(models(diagnostics@) =~= models(before).push(d@));
            }
            idx += 1;
        }
        assert(lv.take(lines.len() as int) =~= lv);
        into_report(diagnostics)
    }
}

/// Stripping never lengthens a line.
pub proof fn lemma_strip_len(s: Seq<char>)
    ensures
        spec_strip(s).len() <= s.len(),
{
    lemma_strip_run_len(s, s.len() as int);
}

proof fn lemma_strip_run_len(s: Seq<char>, n: int)
    requires
        0 <= n <= s.len(),
    ensures
        strip_run(s, n).1.len() <= n,
    decreases n,
{
    if n > 0 {
        lemma_strip_run_len(s, n - 1);
    }
}

/// No character of `s` is a double quote.
pub open spec fn has_no_quote(s: Seq<char>) -> bool {
    forall|k: int| 0 <= k < s.len() ==> #[trigger] s[k] != '"'
}

/// No two neighbouring characters of `s` are both `/`.
pub open spec fn has_no_double_slash(s: Seq<char>) -> bool {
    forall|k: int| 0 <= k < s.len() - 1 ==> !(#[trigger] s[k] == '/' && s[k + 1] == '/')
}

/// The scanner's state at the start of a line.
pub open spec fn strip_start() -> StripState {
    StripState { in_string: false, escaped: false, done: false }
}

/// On a line with no quote and no `//`, the scanner copies each character
/// and stays in its start state.
proof fn lemma_strip_run_plain(s: Seq<char>, n: int)
    requires
        0 <= n <= s.len(),
        has_no_quote(s),
        has_no_double_slash(s),
    ensures
        strip_run(s, n).0 == strip_start(),
        strip_run(s, n).1 == s.take(n),
    decreases n,
{
    if n > 0 {
        lemma_strip_run_plain(s, n - 1);
        let c = s[n - 1];
        assert(c != '"');
        if n < s.len() {
            assert(!(s[n - 1] == '/' && s[n] == '/'));
        }
        assert(s.take(n) =~= s.take(n - 1) + seq![c]);
    }
}

/// What the scanner has written after `n` characters holds no quote and no
/// `//`; and when it ends in `/`, that `/` is the character just read,
/// outside a string, and the next character is no `/`.
proof fn lemma_strip_run_clean(s: Seq<char>, n: int)
    requires
        0 <= n <= s.len(),
    ensures
        has_no_quote(strip_run(s, n).1),
        has_no_double_slash(strip_run(s, n).1),
        ({
            let (st, out) = strip_run(s, n);
            out.len() > 0 && out.last() == '/' ==> {
                &&& !st.in_string
                &&& !st.done
                &&& 1 <= n
                &&& s[n - 1] == '/'
                &&& (n < s.len() ==> s[n] != '/')
            }
        }),
    decreases n,
{
    if n > 0 {
        lemma_strip_run_clean(s, n - 1);
        let prev = strip_run(s, n - 1);
        let step = strip_step(s, n - 1, prev.0);
        let out = prev.1 + step.1;
        assert(strip_run(s, n).1 == out);
        assert forall|k: int| 0 <= k < out.len() implies #[trigger] out[k] != '"' by {
            if k < prev.1.len() {
                assert(out[k] == prev.1[k]);
            }
        }
        assert forall|k: int| 0 <= k < out.len() - 1 implies !(#[trigger] out[k] == '/' && out[k
            + 1] == '/') by {
            if k + 1 < prev.1.len() {
                assert(out[k] == prev.1[k]);
                assert(out[k + 1] == prev.1[k + 1]);
            } else if k + 1 == prev.1.len() {
                assert(out[k] == prev.1.last());
            }
        }
    }
}

/// Stripping string literals and line comments is idempotent: the stripped
/// line holds no quote and no `//`, and a line with neither is left as it
/// is.
pub proof fn law_strip_idempotent(line: Seq<char>)
    ensures
        spec_strip(spec_strip(line)) == spec_strip(line),
        has_no_quote(line) && has_no_double_slash(line) ==> spec_strip(line) == line,
{
    lemma_strip_run_clean(line, line.len() as int);
    let once = spec_strip(line);
    lemma_strip_run_plain(once, once.len() as int);
    assert(once.take(once.len() as int) =~= once);
    if has_no_quote(line) && has_no_double_slash(line) {
        lemma_strip_run_plain(line, line.len() as int);
        assert(line.take(line.len() as int) =~= line);
    }
}


// ---------------------------------------------------------------------------
// SEM014: `SubmitTransaction` logging should name its target
// ---------------------------------------------------------------------------

/// The line invokes a `log::` macro.
pub open spec fn spec_is_log_macro_line(l: Seq<char>) -> bool {
    ||| contains(l, "log::trace!("@)
    ||| contains(l, "log::debug!("@)
    ||| contains(l, "log::info!("@)
    ||| contains(l, "log::warn!("@)
    ||| contains(l, "log::error!("@)
}

fn is_log_macro_line(l: &Vec<char>) -> (r: bool)
    ensures
        r == spec_is_log_macro_line(l@),
{
    contains_str(l, "log::trace!(") || contains_str(l, "log::debug!(") || contains_str(
        l,
        "log::info!(",
    ) || contains_str(l, "log::warn!(") || contains_str(l, "log::error!(")
}

/// The line submits an unsigned transaction through `SubmitTransaction`.
pub open spec fn spec_submits_transaction(l: Seq<char>) -> bool {
    contains(l, "SubmitTransaction::<"@) && contains(l, "submit_transaction"@)
}

/// The first unmasked `log::` line at an index in `[j, end)`.
pub open spec fn first_log_line(lines: Seq<Seq<char>>, mask: Seq<bool>, j: int, end: int) -> Option<
    int,
>
    decreases end - j,
{
    if j >= end {
        None
    } else if !mask[j] && spec_is_log_macro_line(lines[j]) {
        Some(j)
    } else {
        first_log_line(lines, mask, j + 1, end)
    }
}

/// The last line of the five-line window of the log macro at `j`.
pub open spec fn log_window_end(n: int, j: int) -> int {
    (if j + 5 < n {
        j + 5
    } else {
        n
    }) - 1
}

/// Some unmasked line of the log window at `j` names a `target:`.
pub open spec fn log_window_has_target(lines: Seq<Seq<char>>, mask: Seq<bool>, j: int) -> bool {
    exists|k: int|
        j <= k <= log_window_end(lines.len() as int, j) && !mask[k] && #[trigger] contains(
            lines[k],
            "target:"@,
        )
}

/// The SEM014 diagnostic for the log macro at index `j`.
pub open spec fn log_target_model(file: Seq<char>, sev: Severity, n: int, j: int) -> DiagnosticModel {
    DiagnosticModel {
        rule_id: "SEM014"@,
        rule_name: "submit-transaction-log-target"@,
        category: RuleCategory::Semantic,
        severity: sev,
        file,
        line: (j + 1) as nat,
        column: None,
        end_line: Some((log_window_end(n, j) + 1) as nat),
        message: "`SubmitTransaction` logging should include `target: LOG_TARGET`"@,
        explanation: "Offchain transaction submission failures are much easier to trace when pallet logs emit through a stable `LOG_TARGET`. This has repeatedly come up for OCW cleanup and submission paths."@,
        suggestion: Some("Add `target: LOG_TARGET,` to the nearby `log::...!` macro"@),
    }
}

/// The SEM014 diagnostics for the first `count` lines: for each unmasked line
/// that submits a transaction, the first unmasked `log::` macro among it and
/// the next eleven lines, when the five lines from that macro on never name
/// a `target:`.
pub open spec fn log_target_found(
    lines: Seq<Seq<char>>,
    mask: Seq<bool>,
    file: Seq<char>,
    sev: Severity,
    count: int,
) -> Seq<DiagnosticModel>
    decreases count,
{
    if count <= 0 {
        seq![]
    } else {
        let prev = log_target_found(lines, mask, file, sev, count - 1);
        let i = count - 1;
        let n = lines.len() as int;
        let end = if i + 12 < n {
            i + 12
        } else {
            n
        };
        if mask[i] || !spec_submits_transaction(lines[i]) {
            prev
        } else {
            match first_log_line(lines, mask, i, end) {
                Some(j) => if log_window_has_target(lines, mask, j) {
                    prev
                } else {
                    prev.push(log_target_model(file, sev, n, j))
                },
                None => prev,
            }
        }
    }
}

fn first_log_line_exec(lines: &Vec<Vec<char>>, mask: &Vec<bool>, i: usize, end: usize) -> (r:
    Option<usize>)
    requires
        i <= end <= lines.len(),
        mask.len() == lines.len(),
    ensures
        match r {
            Some(j) => first_log_line(lines_view(lines@), mask@, i as int, end as int) == Some(
                j as int,
            ) && i <= j < end,
            None => first_log_line(lines_view(lines@), mask@, i as int, end as int) is None,
        },
    decreases end - i,
{
    if i >= end {
        return None;
    }
    assert(lines_view(lines@)[i as int] == lines@[i as int]@);
    if !mask[i] && is_log_macro_line(&lines[i]) {
        Some(i)
    } else {
        first_log_line_exec(lines, mask, i + 1, end)
    }
}

fn log_window_has_target_exec(lines: &Vec<Vec<char>>, mask: &Vec<bool>, j: usize) -> (r: bool)
    requires
        j < lines.len() <= isize::MAX,
        mask.len() == lines.len(),
    ensures
        r == log_window_has_target(lines_view(lines@), mask@, j as int),
{
    let ghost lv = lines_view(lines@);
    let last = if j + 5 < lines.len() {
        j + 5
    } else {
        lines.len()
    } - 1;
    let pat = chars_of("target:");
    let mut k = j;
    while k <= last
        invariant
            j <= k <= last + 1,
            last == log_window_end(lines.len() as int, j as int),
            last < lines.len(),
            mask.len() == lines.len(),
            lv == lines_view(lines@),
            pat@ == "target:"@,
            forall|m: int| j <= m < k ==> !(!mask@[m] && #[trigger] contains(lv[m], "target:"@)),
        decreases last + 1 - k,
    {
        assert(lv[k as int] == lines@[k as int]@);
        if !mask[k] && crate::text::contains_exec(&lines[k], &pat) {
            return true;
        }
        k += 1;
    }
    false
}

impl SubmitTransactionLogTarget {
    /// Reports `log::` macros near a `SubmitTransaction` call that do not
    /// name a log target.
    pub fn check(&self, ctx: &FileContext, config: &Config) -> (r: Option<Vec<Diagnostic>>)
        requires
            ctx.content@.len() <= isize::MAX,
        ensures
            spec_should_skip_production_rule(ctx) ==> r is None,
            !spec_should_skip_production_rule(ctx) ==> {
                let lines = lines_of(ctx.content@);
                report_of(
                    log_target_found(
                        lines,
                        spec_cfg_test_module_mask(lines),
                        ctx.path@,
                        config.spec_rule_severity("SEM014"@, Severity::Advisory),
                        lines.len() as int,
                    ),
                    r,
                )
            },
    {
        if should_skip_production_rule(ctx) {
            return None;
        }
        let lines = content_lines(ctx);
        let ghost lv = lines_view(lines@);
        let test_mask = cfg_test_module_mask(&lines);
        proof {
            law_masks_cover_every_line(lv);
        }
        let severity = config.rule_severity(self.id(), Severity::Advisory);
        let n = lines.len();
        let mut diagnostics: Vec<Diagnostic> = Vec::new();
        let mut i: usize = 0;
        while i < n
            invariant
                i <= n == lines@.len(),
                n <= isize::MAX,
                lv == lines_view(lines@),
                test_mask@ == spec_cfg_test_module_mask(lv),
                test_mask@.len() == n,
                models(diagnostics@) == log_target_found(
                    lv,
                    test_mask@,
                    ctx.path@,
                    severity,
                    i as int,
                ),
            decreases n - i,
        {
            assert(lv[i as int] == lines@[i as int]@);
            if !test_mask[i] && contains_str(&lines[i], "SubmitTransaction::<") && contains_str(
                &lines[i],
                "submit_transaction",
            ) {
                let end = if i + 12 < n {
                    i + 12
                } else {
                    n
                };
                match first_log_line_exec(&lines, &test_mask, i, end) {
                    Some(j) => {
                        if !log_window_has_target_exec(&lines, &test_mask, j) {
                            let log_end = if j + 5 < n {
                                j + 5
                            } else {
                                n
                            } - 1;
                            let d = make_diagnostic(
                                self.id(),
                                self.name(),
                                RuleCategory::Semantic,
                                severity,
                                &ctx.path,
                                j + 1,
                                None,
                                Some(log_end + 1),
                                "`SubmitTransaction` logging should include `target: LOG_TARGET`".to_owned(),
                                "Offchain transaction submission failures are much easier to trace when pallet logs emit through a stable `LOG_TARGET`. This has repeatedly come up for OCW cleanup and submission paths.",
                                Some(
                                    "Add `target: LOG_TARGET,` to the nearby `log::...!` macro".to_owned(),
                                ),
                            );
                            let ghost before = diagnostics@;
                            diagnostics.push(d);
                            assert(models(diagnostics@) =~= models(before).push(d@));
                        }
                    },
                    None => {},
                }
            }
            i += 1;
        }
        into_report(diagnostics)
    }
}


// ---------------------------------------------------------------------------
// VAL001: cheap validation should come before heavy reads
// ---------------------------------------------------------------------------

/// The index of the first of `pats` that occurs in `t`.
pub open spec fn first_pattern(pats: Seq<Seq<char>>, t: Seq<char>) -> Option<int>
    decreases pats.len(),
{
    if pats.len() == 0 {
        None
    } else if contains(t, pats[0]) {
        Some(0)
    } else {
        match first_pattern(pats.drop_first(), t) {
            Some(q) => Some(q + 1),
            None => None,
        }
    }
}

/// The last whitespace-separated word of `s` (empty when there is none).
pub open spec fn last_word(s: Seq<char>) -> Seq<char> {
    trailing_word(crate::text::trim_end(s))
}

/// The non-whitespace characters at the end of `s`.
pub open spec fn trailing_word(s: Seq<char>) -> Seq<char>
    decreases s.len(),
{
    if s.len() == 0 || crate::text::is_ws(s.last()) {
        seq![]
    } else {
        trailing_word(s.drop_last()).push(s.last())
    }
}

/// The text of `t` before its first `=`, trimmed.
pub open spec fn assigned_lhs(t: Seq<char>) -> Seq<char> {
    match crate::text::find(t, "="@) {
        Some(k) => trim(t.take(k)),
        None => trim(t),
    }
}

/// The scanner state of VAL001 between two lines.
pub struct ValState {
    pub in_fn: bool,
    pub fn_start: int,
    pub brace_depth: int,
    /// The line and the heavy pattern of the first heavy operation seen in
    /// the current function, until it is reported.
    pub first_heavy: Option<(int, int)>,
    /// The text left of `=` on that line.
    pub heavy_lhs: Option<Seq<char>>,
}

/// A VAL001 finding: the heavy line and pattern, the cheap pattern and the
/// line that holds it.
pub struct ValFinding {
    pub heavy_line: int,
    pub heavy: int,
    pub cheap: int,
    pub line: int,
}

/// One line of VAL001.
///
/// Comment and attribute lines are skipped. A line with `pub fn ` or starting
/// with `fn `, holding `(`, starts a function; its brace depth is tracked
/// until it falls to zero. Within it, the first line with a heavy pattern is
/// remembered; a later line with a cheap pattern is reported against it,
/// unless the line mentions the variable the heavy read was assigned to.
pub open spec fn val_step(
    heavy: Seq<Seq<char>>,
    cheap: Seq<Seq<char>>,
    st: ValState,
    i: int,
    line: Seq<char>,
) -> (ValState, Option<ValFinding>) {
    let t = trim(line);
    if starts_with(t, "//"@) || starts_with(t, "#["@) || starts_with(t, "///"@) {
        (st, None)
    } else {
        let starts_fn = !st.in_fn && (contains(t, "pub fn "@) || starts_with(t, "fn "@))
            && contains(t, "("@);
        let st1 = if starts_fn {
            ValState { in_fn: true, fn_start: i, brace_depth: 0, first_heavy: None, heavy_lhs: None }
        } else {
            st
        };
        if !st1.in_fn {
            (st1, None)
        } else {
            let bd = st1.brace_depth + crate::text::count_char(line, '{') - crate::text::count_char(
                line,
                '}',
            );
            let (first2, lhs2) = if st1.first_heavy is None {
                match first_pattern(heavy, t) {
                    Some(p) => (Some((i, p)), Some(assigned_lhs(t))),
                    None => (st1.first_heavy, st1.heavy_lhs),
                }
            } else {
                (st1.first_heavy, st1.heavy_lhs)
            };
            let (finding, first3, lhs3) = match first2 {
                Some((hl, hp)) => {
                    let var = match lhs2 {
                        Some(l) => last_word(l),
                        None => seq![],
                    };
                    let skip_line = lhs2 is Some && var.len() > 0 && contains(t, var);
                    match first_pattern(cheap, t) {
                        Some(q) => if i > hl && !skip_line {
                            (
                                Some(ValFinding { heavy_line: hl, heavy: hp, cheap: q, line: i }),
                                None,
                                None,
                            )
                        } else {
                            (None, first2, lhs2)
                        },
                        None => (None, first2, lhs2),
                    }
                },
                None => (None, first2, lhs2),
            };
            let ends = bd <= 0 && i > st1.fn_start;
            (
                ValState {
                    in_fn: !ends,
                    fn_start: st1.fn_start,
                    brace_depth: bd,
                    first_heavy: if ends {
                        None
                    } else {
                        first3
                    },
                    heavy_lhs: if ends {
                        None
                    } else {
                        lhs3
                    },
                },
                finding,
            )
        }
    }
}

/// VAL001 over the first `count` lines: the state and the findings.
pub open spec fn val_run(
    heavy: Seq<Seq<char>>,
    cheap: Seq<Seq<char>>,
    lines: Seq<Seq<char>>,
    count: int,
) -> (ValState, Seq<ValFinding>)
    decreases count,
{
    if count <= 0 {
        (
            ValState { in_fn: false, fn_start: 0, brace_depth: 0, first_heavy: None, heavy_lhs: None },
            seq![],
        )
    } else {
        let prev = val_run(heavy, cheap, lines, count - 1);
        let step = val_step(heavy, cheap, prev.0, count - 1, lines[count - 1]);
        (
            step.0,
            match step.1 {
                Some(f) => prev.1.push(f),
                None => prev.1,
            },
        )
    }
}

/// The diagnostic of a VAL001 finding.
pub open spec fn val_model(
    heavy: Seq<Seq<char>>,
    cheap: Seq<Seq<char>>,
    file: Seq<char>,
    sev: Severity,
    f: ValFinding,
) -> DiagnosticModel {
    let hp = heavy[f.heavy];
    let cq = cheap[f.cheap];
    DiagnosticModel {
        rule_id: "VAL001"@,
        rule_name: "validation-before-heavy-read"@,
        category: RuleCategory::Semantic,
        severity: sev,
        file,
        line: (f.heavy_line + 1) as nat,
        column: None,
        end_line: Some((f.line + 1) as nat),
        message: "Heavy operation `"@ + hp + "` at line "@ + crate::text::decimal(
            (f.heavy_line + 1) as nat,
        ) + " occurs before cheap validation `"@ + cq + "` at line "@
            + crate::text::decimal((f.line + 1) as nat),
        explanation: "Cheap precondition checks should run before expensive storage reads or computation. This avoids wasting resources when the operation would fail anyway."@,
        suggestion: Some("Move the `"@ + cq + "` check before the `"@ + hp + "` call"@),
    }
}

/// The VAL001 diagnostics of a file.
pub open spec fn val_found(
    heavy: Seq<Seq<char>>,
    cheap: Seq<Seq<char>>,
    lines: Seq<Seq<char>>,
    file: Seq<char>,
    sev: Severity,
) -> Seq<DiagnosticModel> {
    val_run(heavy, cheap, lines, lines.len() as int).1.map_values(
        |f: ValFinding| val_model(heavy, cheap, file, sev, f),
    )
}

proof fn lemma_val_run_bounds(
    heavy: Seq<Seq<char>>,
    cheap: Seq<Seq<char>>,
    lines: Seq<Seq<char>>,
    count: int,
)
    requires
        0 <= count <= lines.len(),
    ensures
        -total_len(lines.take(count)) <= val_run(heavy, cheap, lines, count).0.brace_depth
            <= total_len(lines.take(count)),
        0 <= val_run(heavy, cheap, lines, count).0.fn_start <= count,
        val_run(heavy, cheap, lines, count).0.first_heavy matches Some((hl, hp)) ==> 0 <= hl
            < count && 0 <= hp < heavy.len(),
        val_run(heavy, cheap, lines, count).0.first_heavy is Some ==> val_run(
            heavy,
            cheap,
            lines,
            count,
        ).0.heavy_lhs is Some,
        forall|k: int|
            0 <= k < val_run(heavy, cheap, lines, count).1.len() ==> {
                let f = #[trigger] val_run(heavy, cheap, lines, count).1[k];
                0 <= f.heavy < heavy.len() && 0 <= f.cheap < cheap.len() && 0 <= f.heavy_line
                    < f.line < count
            },
    decreases count,
{
    if count > 0 {
        lemma_val_run_bounds(heavy, cheap, lines, count - 1);
        crate::text::lemma_total_len_take(lines, count - 1);
        crate::rules::masks::lemma_count_le(lines[count - 1], '{');
        crate::rules::masks::lemma_count_le(lines[count - 1], '}');
        lemma_first_pattern_bound(heavy, trim(lines[count - 1]));
        lemma_first_pattern_bound(cheap, trim(lines[count - 1]));
    }
}

proof fn lemma_first_pattern_bound(pats: Seq<Seq<char>>, t: Seq<char>)
    ensures
        first_pattern(pats, t) matches Some(q) ==> 0 <= q < pats.len() && contains(t, pats[q]),
        first_pattern(pats, t) is None ==> forall|q: int|
            0 <= q < pats.len() ==> !contains(t, #[trigger] pats[q]),
    decreases pats.len(),
{
    if pats.len() > 0 {
        lemma_first_pattern_bound(pats.drop_first(), t);
        if first_pattern(pats, t) is None {
            assert forall|q: int| 0 <= q < pats.len() implies !contains(t, #[trigger] pats[q]) by {
                if q > 0 {
                    assert(pats[q] == pats.drop_first()[q - 1]);
                }
            }
        }
    }
}

fn first_pattern_exec(pats: &Vec<Vec<char>>, t: &Vec<char>) -> (r: Option<usize>)
    ensures
        match r {
            Some(q) => first_pattern(lines_view(pats@), t@) == Some(q as int),
            None => first_pattern(lines_view(pats@), t@) is None,
        },
{
    let ghost pv = lines_view(pats@);
    let mut q: usize = 0;
    assert(pv.skip(0) =~= pv);
    while q < pats.len()
        invariant
            q <= pats.len(),
            pv == lines_view(pats@),
            forall|j: int| 0 <= j < q ==> !contains(t@, #[trigger] pv[j]),
            first_pattern(pv, t@) == (match first_pattern(pv.skip(q as int), t@) {
                Some(k) => Some(k + q),
                None => None,
            }),
        decreases pats.len() - q,
    {
        assert(pv[q as int] == pats@[q as int]@);
        assert(pv.skip(q as int)[0] == pv[q as int]);
        assert(pv.skip(q as int).drop_first() =~= pv.skip(q + 1));
        if crate::text::contains_exec(t, &pats[q]) {
            return Some(q);
        }
        q += 1;
    }
    assert(pv.skip(q as int) =~= Seq::<Seq<char>>::empty());
    None
}

fn last_word_exec(s: &Vec<char>) -> (r: Vec<char>)
    ensures
        r@ == last_word(s@),
{
    let mut b = s.len();
    while b > 0 && crate::text::is_ws_exec(s[b - 1])
        invariant
            b <= s.len(),
            forall|i: int| b <= i < s.len() ==> crate::text::is_ws(s@[i]),
        decreases b,
    {
        b -= 1;
    }
    proof {
        crate::text::lemma_trim_end_take(s@, b as int);
    }
    let mut a = b;
    while a > 0 && !crate::text::is_ws_exec(s[a - 1])
        invariant
            a <= b <= s.len(),
            forall|i: int| a <= i < b ==> !crate::text::is_ws(s@[i]),
        decreases a,
    {
        a -= 1;
    }
    proof {
        lemma_trailing_word(s@.take(b as int), a as int);
        assert(s@.take(b as int).skip(a as int) =~= s@.subrange(a as int, b as int));
    }
    crate::text::copy_range(s, a, b)
}

proof fn lemma_trailing_word(s: Seq<char>, a: int)
    requires
        0 <= a <= s.len(),
        forall|i: int| a <= i < s.len() ==> !crate::text::is_ws(s[i]),
        a == 0 || crate::text::is_ws(s[a - 1]),
    ensures
        trailing_word(s) == s.skip(a),
    decreases s.len() - a,
{
    if a < s.len() {
        lemma_trailing_word(s.drop_last(), a);
        assert(s.drop_last().skip(a).push(s.last()) =~= s.skip(a));
    } else {
        assert(s.skip(a) =~= Seq::<char>::empty());
    }
}

fn assigned_lhs_exec(t: &Vec<char>) -> (r: Vec<char>)
    ensures
        r@ == assigned_lhs(t@),
{
    let eq = chars_of("=");
    match crate::text::find_exec(t, &eq) {
        Some(k) => {
            let pre = crate::text::copy_range(t, 0, k);
            assert(pre@ =~= t@.take(k as int));
            trim_exec(&pre)
        },
        None => trim_exec(t),
    }
}

fn val_message(hp: &Vec<char>, heavy_line: usize, cq: &Vec<char>, line: usize) -> (r: String)
    ensures
        r@ == "Heavy operation `"@ + hp@ + "` at line "@ + crate::text::decimal(heavy_line as nat)
            + " occurs before cheap validation `"@ + cq@ + "` at line "@
            + crate::text::decimal(line as nat),
{
    let mid = chars_of(" occurs before cheap validation `");
    let m = chars_of("Heavy operation `");
    let m = crate::text::concat(&m, hp);
    let m = crate::text::push_str(m, "` at line ");
    let m = crate::text::concat(&m, &crate::text::decimal_exec(heavy_line));
    let m = crate::text::concat(&m, &mid);
    let m = crate::text::concat(&m, cq);
    let m = crate::text::push_str(m, "` at line ");
    let m = crate::text::concat(&m, &crate::text::decimal_exec(line));
    crate::text::string_of(&m)
}

fn val_suggestion(hp: &Vec<char>, cq: &Vec<char>) -> (r: String)
    ensures
        r@ == "Move the `"@ + cq@ + "` check before the `"@ + hp@ + "` call"@,
{
    let m = chars_of("Move the `");
    let m = crate::text::concat(&m, cq);
    let m = crate::text::push_str(m, "` check before the `");
    let m = crate::text::concat(&m, hp);
    let m = crate::text::push_str(m, "` call");
    crate::text::string_of(&m)
}

/// The characters of each string of `v`.
pub fn strings_chars(v: &Vec<String>) -> (r: Vec<Vec<char>>)
    ensures
        lines_view(r@) == v@.map_values(|s: String| s@),
{
    let mut r: Vec<Vec<char>> = Vec::new();
    let mut i: usize = 0;
    while i < v.len()
        invariant
            i <= v.len(),
            lines_view(r@) == v@.map_values(|s: String| s@).take(i as int),
        decreases v.len() - i,
    {
        let c = chars_of(v[i].as_str());
        let ghost before = r@;
        r.push(c);
        assert(lines_view(r@) =~= lines_view(before).push(c@));
        assert(v@.map_values(|s: String| s@).take(i + 1) =~= v@.map_values(|s: String| s@).take(
            i as int,
        ).push(v@[i as int]@));
        i += 1;
    }
    assert(v@.map_values(|s: String| s@).take(v.len() as int) =~= v@.map_values(
        |s: String| s@,
    ));
    r
}

impl ValidationBeforeHeavyRead {
    /// Reports heavy operations that run before a cheap validation in the
    /// same function.
    pub fn check(&self, ctx: &FileContext, config: &Config) -> (r: Option<Vec<Diagnostic>>)
        requires
            ctx.content@.len() <= isize::MAX,
        ensures
            (!ctx.is_rust || ctx.is_benchmark_file || ctx.is_test_file) ==> r is None,
            (ctx.is_rust && !ctx.is_benchmark_file && !ctx.is_test_file) ==> report_of(
                val_found(
                    config.validation_order.heavy_operations@.map_values(|s: String| s@),
                    config.validation_order.cheap_validations@.map_values(|s: String| s@),
                    lines_of(ctx.content@),
                    ctx.path@,
                    config.spec_rule_severity("VAL001"@, Severity::Warning),
                ),
                r,
            ),
    {
        if !ctx.is_rust || ctx.is_benchmark_file || ctx.is_test_file {
            return None;
        }
        let lines = content_lines(ctx);
        let ghost lv = lines_view(lines@);
        let heavy = strings_chars(&config.validation_order.heavy_operations);
        let cheap = strings_chars(&config.validation_order.cheap_validations);
        let ghost hv = lines_view(heavy@);
        let ghost cv = lines_view(cheap@);
        let severity = config.rule_severity(self.id(), Severity::Warning);
        let mut diagnostics: Vec<Diagnostic> = Vec::new();
        let mut in_fn = false;
        let mut fn_start: usize = 0;
        let mut brace_depth: i64 = 0;
        let mut first_heavy: Option<(usize, usize)> = None;
        let mut heavy_lhs: Option<Vec<char>> = None;
        let mut i: usize = 0;
        while i < lines.len()
            invariant
                i <= lines@.len(),
                lines@.len() <= isize::MAX,
                total_len(lv) <= isize::MAX,
                lv == lines_view(lines@),
                hv == lines_view(heavy@),
                cv == lines_view(cheap@),
                ({
                    let st = val_run(hv, cv, lv, i as int);
                    &&& models(diagnostics@) == st.1.map_values(
                        |f: ValFinding| val_model(hv, cv, ctx.path@, severity, f),
                    )
                    &&& st.0.in_fn == in_fn
                    &&& st.0.fn_start == fn_start as int
                    &&& st.0.brace_depth == brace_depth as int
                    &&& st.0.first_heavy == (match first_heavy {
                        Some((a, b)) => Some((a as int, b as int)),
                        None => None,
                    })
                    &&& st.0.heavy_lhs == (match heavy_lhs {
                        Some(l) => Some(l@),
                        None => None,
                    })
                }),
            decreases lines.len() - i,
        {
            let line = &lines[i];
            let ghost prev = val_run(hv, cv, lv, i as int);
            proof {
                assert(lv[i as int] == line@);
                lemma_val_run_bounds(hv, cv, lv, i as int);
                crate::text::lemma_total_len_take(lv, i as int);
                crate::text::lemma_total_len_prefix(lv, i + 1);
                crate::rules::masks::lemma_count_le(line@, '{');
                crate::rules::masks::lemma_count_le(line@, '}');
            }
            let t = trim_exec(line);
            if starts_with_str(&t, "//") || starts_with_str(&t, "#[") || starts_with_str(
                &t,
                "///",
            ) {
                i += 1;
                continue;
            }
            if !in_fn && (contains_str(&t, "pub fn ") || starts_with_str(&t, "fn "))
                && contains_str(&t, "(") {
                in_fn = true;
                fn_start = i;
                first_heavy = None;
                heavy_lhs = None;
                brace_depth = 0;
            }
            if in_fn {
                let open = crate::text::count_char_exec(line, '{');
                let close = crate::text::count_char_exec(line, '}');
                brace_depth = brace_depth + open as i64 - close as i64;
                if first_heavy.is_none() {
                    match first_pattern_exec(&heavy, &t) {
                        Some(p) => {
                            heavy_lhs = Some(assigned_lhs_exec(&t));
                            first_heavy = Some((i, p));
                        },
                        None => {},
                    }
                }
                match first_heavy {
                    Some((hl, hp)) => {
                        let var = match &heavy_lhs {
                            Some(l) => last_word_exec(l),
                            None => Vec::new(),
                        };
                        let skip_line = heavy_lhs.is_some() && var.len() > 0
                            && crate::text::contains_exec(&t, &var);
                        match first_pattern_exec(&cheap, &t) {
                            Some(q) => {
                                if i > hl && !skip_line {
                                    proof {
                                        lemma_first_pattern_bound(hv, t@);
                                        lemma_first_pattern_bound(cv, t@);
                                        assert(hv[hp as int] == heavy@[hp as int]@);
                                        assert(cv[q as int] == cheap@[q as int]@);
                                    }
                                    let message = val_message(&heavy[hp], hl + 1, &cheap[q], i + 1);
                                    let suggestion = val_suggestion(&heavy[hp], &cheap[q]);
                                    let d = make_diagnostic(
                                        self.id(),
                                        self.name(),
                                        RuleCategory::Semantic,
                                        severity,
                                        &ctx.path,
                                        hl + 1,
                                        None,
                                        Some(i + 1),
                                        message,
                                        "Cheap precondition checks should run before expensive storage reads or computation. This avoids wasting resources when the operation would fail anyway.",
                                        Some(suggestion),
                                    );
                                    let ghost before = diagnostics@;
                                    diagnostics.push(d);
                                    assert(models(diagnostics@) =~= models(before).push(d@));
                                    first_heavy = None;
                                    heavy_lhs = None;
                                }
                            },
                            None => {},
                        }
                    },
                    None => {},
                }
                if brace_depth <= 0 && i > fn_start {
                    in_fn = false;
                    first_heavy = None;
                    heavy_lhs = None;
                }
            }
            proof {
                let step = val_step(hv, cv, prev.0, i as int, lv[i as int]);
                let now = val_run(hv, cv, lv, i + 1);
                assert(now.1 == match step.1 {
                    Some(f) => prev.1.push(f),
                    None => prev.1,
                });
                assert(now.1.map_values(|f: ValFinding| val_model(hv, cv, ctx.path@, severity, f))
                    =~= models(diagnostics@));
            }
            i += 1;
        }
        assert(config.validation_order.heavy_operations@.map_values(|s: String| s@) == hv);
        into_report(diagnostics)
    }
}

} // verus!
