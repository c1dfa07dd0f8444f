//! What is wrong with an annotation, as far as its own text shows it. Such a
//! fault is never a reason to skip a test: it stops the build.

use vstd::prelude::*;

verus! {

/// A fault in how an annotation is written or placed.
#[derive(Debug, Clone, Copy, PartialEq, Eq, Structural)]
pub enum ConfigError {
    /// An executable list uses both `,` and `||`.
    MixedCombinators,
    /// The floor on the logical cores is no count.
    BadCoreCount,
    /// The floor on the physical cores is no count.
    BadPhysicalCoreCount,
    /// The floor on the memory is no byte quantity.
    BadMemorySize,
    /// The floor on the swap space is no byte quantity.
    BadSwapSize,
    /// An entry of an address list is no IP address.
    BadIpAddress,
    /// `PST` names two offsets.
    AmbiguousPst,
    /// `CST` names two offsets.
    AmbiguousCst,
    /// `IST` names three offsets.
    AmbiguousIst,
    /// The annotated module has no body.
    ModuleWithoutBody,
    /// The lock stands on a module.
    LockOnModule,
    /// The waiting time of the lock is no count.
    BadLockWait,
    /// The annotation stands before `serial`.
    BeforeSerial,
    /// A runtime module is marked to build for tests only.
    TestCfgOnRuntimeModule,
    /// A function of a runtime module carries the test marker.
    TestMarkerInRuntimeModule,
    /// A function of a runtime module carries a build-time condition.
    BuildTimeConditionInRuntimeModule,
    /// The fixture type of a runtime module is not public.
    PrivateTestEnv,
}

impl ConfigError {
    /// The message of this fault.
    pub open spec fn text(self) -> Seq<char> {
        match self {
            ConfigError::MixedCombinators => "',' and '||' can not be used at the same time"@,
            ConfigError::BadCoreCount => "core limitation is incorrect"@,
            ConfigError::BadPhysicalCoreCount => "physical core limitation is incorrect"@,
            ConfigError::BadMemorySize => "memory size description is not correct"@,
            ConfigError::BadSwapSize => "swap size description is not correct"@,
            ConfigError::BadIpAddress => "ip address malformat"@,
            ConfigError::AmbiguousPst => "PST can be GMT+8 or GMT-8, please use +8 or -8 instead"@,
            ConfigError::AmbiguousCst => "CST can be GMT+8 or GMT-6, please use +8 or -6 instead"@,
            ConfigError::AmbiguousIst => {
                "IST can be GMT+5.5, GMT+2 or GMT+1, please use +5.5, 2 or 1 instead"@
            },
            ConfigError::ModuleWithoutBody => "should use on mod with context"@,
            ConfigError::LockOnModule => "#[test_with::lock] only works with fn"@,
            ConfigError::BadLockWait => {
                "`The second parameter of #[test_with::lock]` should be a number for waiting time"@
            },
            ConfigError::BeforeSerial => "`#[test_with::*]` should place after `#[serial]`"@,
            ConfigError::TestCfgOnRuntimeModule => {
                "should not use `#[cfg(test)]` on the mod with `#[test_with::module]`"@
            },
            ConfigError::TestMarkerInRuntimeModule => {
                "should not use #[test] for method in `#[test_with::module]`"@
            },
            ConfigError::BuildTimeConditionInRuntimeModule => {
                "use `#[test_with::runtime_*]` for method in `#[test_with::module]`"@
            },
            ConfigError::PrivateTestEnv => "TestEnv should be pub for testing"@,
        }
    }

    /// The message of this fault.
    pub fn message(&self) -> (out: String)
        ensures
            out@ == self.text(),
    {
        let words: &str = match self {
            ConfigError::MixedCombinators => "',' and '||' can not be used at the same time",
            ConfigError::BadCoreCount => "core limitation is incorrect",
            ConfigError::BadPhysicalCoreCount => "physical core limitation is incorrect",
            ConfigError::BadMemorySize => "memory size description is not correct",
            ConfigError::BadSwapSize => "swap size description is not correct",
            ConfigError::BadIpAddress => "ip address malformat",
            ConfigError::AmbiguousPst => "PST can be GMT+8 or GMT-8, please use +8 or -8 instead",
            ConfigError::AmbiguousCst => "CST can be GMT+8 or GMT-6, please use +8 or -6 instead",
            ConfigError::AmbiguousIst => {
                "IST can be GMT+5.5, GMT+2 or GMT+1, please use +5.5, 2 or 1 instead"
            },
            ConfigError::ModuleWithoutBody => "should use on mod with context",
            ConfigError::LockOnModule => "#[test_with::lock] only works with fn",
            ConfigError::BadLockWait => {
                "`The second parameter of #[test_with::lock]` should be a number for waiting time"
            },
            ConfigError::BeforeSerial => "`#[test_with::*]` should place after `#[serial]`",
            ConfigError::TestCfgOnRuntimeModule => {
                "should not use `#[cfg(test)]` on the mod with `#[test_with::module]`"
            },
            ConfigError::TestMarkerInRuntimeModule => {
                "should not use #[test] for method in `#[test_with::module]`"
            },
            ConfigError::BuildTimeConditionInRuntimeModule => {
                "use `#[test_with::runtime_*]` for method in `#[test_with::module]`"
            },
            ConfigError::PrivateTestEnv => "TestEnv should be pub for testing",
        };
        words.to_owned()
    }
}

} // verus!
