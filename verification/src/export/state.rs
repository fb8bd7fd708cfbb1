//! The state of the exporter of one module.

use vstd::hash_map::StringHashMap;
use vstd::prelude::*;

use crate::export::function::LlvmFunction;
use crate::export::pointer_facts::{
    value_type_facts, AuxData, LegacyTy, LegacyType, Value, ValueFacts,
};
use crate::export::typed::{
    lemma_flag_is_sticky, propagate_op_facts, propagate_phi_facts, rounds, seed_blocks,
    seed_function_values, PredecessorMap, Progress,
};
use crate::text::{concat2, concat3, same_text, starts_with};

verus! {

/// How pointers are written.
#[derive(Debug, Clone, Copy, PartialEq, Eq, Structural)]
pub enum PointerMode {
    /// `ptr`.
    Opaque,
    /// `T*`.
    LegacyTyped,
}

/// Cluster dimensions of a kernel.
pub struct KernelClusterConfig {
    pub name: String,
    pub dim_x: u32,
    pub dim_y: u32,
    pub dim_z: u32,
}

/// Launch bounds of a kernel.
pub struct KernelLaunchBounds {
    pub name: String,
    pub max_threads: u32,
    pub min_blocks: Option<u32>,
}

/// A kernel.
pub struct KernelInfo {
    pub name: String,
}

/// The state of the exporter of one module.
pub struct ModuleExportState {
    /// How pointers are written.
    pub pointer_mode: PointerMode,
    /// What is known of the values of the current function.
    pub legacy_type_facts: ValueFacts,
    /// References to functions, by symbol name.
    pub function_refs: StringHashMap<String>,
    /// Whether any convergent operation was printed.
    pub convergent_used: bool,
    /// Kernels with cluster dimensions.
    pub cluster_kernels: Vec<KernelClusterConfig>,
    /// Kernels with launch bounds.
    pub launch_bounds_kernels: Vec<KernelLaunchBounds>,
    /// All kernels, where they are tracked.
    pub all_kernels: Vec<KernelInfo>,
    /// Whether to track all kernels.
    pub track_all_kernels: bool,
    /// Whether to print `ptx_kernel` on kernel definitions.
    pub emit_ptx_kernel_keyword: bool,
    /// Names of the device functions.
    pub device_functions: Vec<String>,
}

/// Whether calls of this intrinsic must not be moved into or out of divergent
/// control flow: barriers, shuffles, votes and bulk copies.
pub open spec fn convergent_name(name: Seq<char>) -> bool {
    ||| name == "llvm.nvvm.barrier0"@
    ||| "llvm.nvvm.barrier"@.is_prefix_of(name)
    ||| "llvm.nvvm.mbarrier"@.is_prefix_of(name)
    ||| "llvm.nvvm.shfl"@.is_prefix_of(name)
    ||| "llvm.nvvm.vote"@.is_prefix_of(name)
    ||| "llvm.nvvm.cp.async.bulk"@.is_prefix_of(name)
}

impl ModuleExportState {
    /// The state before anything has been printed.
    pub fn new(
        track_all_kernels: bool,
        emit_ptx_kernel_keyword: bool,
        pointer_mode: PointerMode,
    ) -> (state: Self)
        ensures
            state.pointer_mode == pointer_mode,
            state.track_all_kernels == track_all_kernels,
            state.emit_ptx_kernel_keyword == emit_ptx_kernel_keyword,
            !state.convergent_used,
            state.legacy_type_facts@ == Map::<usize, LegacyTy>::empty(),
            state.function_refs@ == Map::<Seq<char>, String>::empty(),
            state.cluster_kernels@.len() == 0,
            state.launch_bounds_kernels@.len() == 0,
            state.all_kernels@.len() == 0,
            state.device_functions@.len() == 0,
    {
        ModuleExportState {
            pointer_mode,
            legacy_type_facts: ValueFacts::new(),
            function_refs: StringHashMap::new(),
            convergent_used: false,
            cluster_kernels: Vec::new(),
            launch_bounds_kernels: Vec::new(),
            all_kernels: Vec::new(),
            track_all_kernels,
            emit_ptx_kernel_keyword,
            device_functions: Vec::new(),
        }
    }

    /// Whether a function of this name is a convergent intrinsic.
    pub fn is_convergent_intrinsic(name: &str) -> (yes: bool)
        ensures
            yes == convergent_name(name@),
    {
        same_text(name, "llvm.nvvm.barrier0") || starts_with(name, "llvm.nvvm.barrier")
            || starts_with(name, "llvm.nvvm.mbarrier") || starts_with(name, "llvm.nvvm.shfl")
            || starts_with(name, "llvm.nvvm.vote") || starts_with(name, "llvm.nvvm.cp.async.bulk")
    }

    /// Whether pointers are written with their pointee.
    pub fn uses_legacy_typed_pointers(&self) -> (yes: bool)
        ensures
            yes == (self.pointer_mode == PointerMode::LegacyTyped),
    {
        self.pointer_mode == PointerMode::LegacyTyped
    }

    /// What is known of `value`.
    pub fn legacy_fact(&self, value: Value) -> (fact: Option<&LegacyType>)
        ensures
            match fact {
                Some(t) => self.legacy_type_facts@.contains_key(value)
                    && self.legacy_type_facts@[value] == t@,
                None => !self.legacy_type_facts@.contains_key(value),
            },
    {
        self.legacy_type_facts.get(value)
    }

    /// A reference to the function `name` in typed-pointer syntax.
    pub open spec fn typed_function_ref(&self, name: Seq<char>) -> Seq<char> {
        if self.function_refs@.contains_key(name) {
            self.function_refs@[name]@
        } else {
            "void ()* @"@ + name
        }
    }

    fn typed_ref(&self, name: &str) -> (text: String)
        ensures
            text@ == self.typed_function_ref(name@),
    {
        match self.function_refs.get(name) {
            Some(text) => text.clone(),
            None => concat2("void ()* @", name),
        }
    }

    /// How metadata refers to the function `name`.
    pub fn metadata_function_ref(&self, name: &str) -> (text: String)
        ensures
            text@ == if self.pointer_mode == PointerMode::LegacyTyped {
                self.typed_function_ref(name@)
            } else {
                "ptr @"@ + name@
            },
    {
        if self.uses_legacy_typed_pointers() {
            self.typed_ref(name)
        } else {
            concat2("ptr @", name)
        }
    }

    /// The element type of `@llvm.used`.
    pub fn llvm_used_entry_type(&self) -> (text: &'static str)
        ensures
            text@ == if self.pointer_mode == PointerMode::LegacyTyped {
                "i8*"@
            } else {
                "ptr"@
            },
    {
        if self.uses_legacy_typed_pointers() {
            "i8*"
        } else {
            "ptr"
        }
    }

    /// The entry of the function `name` in `@llvm.used`.
    pub fn llvm_used_entry(&self, name: &str) -> (text: String)
        ensures
            text@ == if self.pointer_mode == PointerMode::LegacyTyped {
                "i8* bitcast ("@ + self.typed_function_ref(name@) + " to i8*)"@
            } else {
                "ptr @"@ + name@
            },
    {
        if self.uses_legacy_typed_pointers() {
            let func_ref = self.typed_ref(name);
            concat3("i8* bitcast (", &func_ref, " to i8*)")
        } else {
            concat2("ptr @", name)
        }
    }

    /// What is known of the values of `func`: what lowering left, what the
    /// types say, and what follows from its jumps and operations in up to 64
    /// rounds. Nothing where pointers are opaque.
    pub fn analyze_legacy_type_facts(
        &self,
        aux: &AuxData,
        func: &LlvmFunction,
        pred_map: &PredecessorMap,
    ) -> (facts: ValueFacts)
        requires
            func.wf(),
            pred_map@.len() == func.blocks@.len(),
        ensures
            facts@ == if self.pointer_mode == PointerMode::LegacyTyped {
                rounds(
                    *func,
                    pred_map@,
                    seed_blocks(
                        *func,
                        Progress { facts: aux.facts(), changed: false },
                        func.blocks@.len(),
                    ).facts,
                    64,
                )
            } else {
                Map::empty()
            },
    {
        if !self.uses_legacy_typed_pointers() {
            return ValueFacts::new();
        }
        let mut facts = value_type_facts(aux);
        seed_function_values(func, &mut facts);
        let ghost seeded = facts@;
        let mut left: u32 = 64;
        while left > 0
            invariant
                func.wf(),
                pred_map@.len() == func.blocks@.len(),
                self.pointer_mode == PointerMode::LegacyTyped,
                seeded == seed_blocks(
                    *func,
                    Progress { facts: aux.facts(), changed: false },
                    func.blocks@.len(),
                ).facts,
                rounds(*func, pred_map@, seeded, 64) == rounds(
                    *func,
                    pred_map@,
                    facts@,
                    left as nat,
                ),
            decreases left,
        {
            let ghost before = facts@;
            let passed = propagate_phi_facts(func, pred_map, &mut facts);
            let ghost after_phi = facts@;
            let computed = propagate_op_facts(func, &mut facts);
            proof {
                lemma_flag_is_sticky(
                    *func,
                    Progress { facts: after_phi, changed: passed },
                    func.blocks@.len(),
                );
            }
            if !passed && !computed {
                return facts;
            }
            left = left - 1;
        }
        facts
    }
}

} // verus!
