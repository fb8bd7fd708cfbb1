//! Printing LLVM types.

use vstd::prelude::*;

use crate::export::function::LlvmFunction;
use crate::export::pointer_facts::{from_llvm, legacy_text, LegacyType, Value};
use crate::export::state::{ModuleExportState, PointerMode};
use crate::ir::llvm::{llvm_tys, LlvmTy, LlvmType};
use crate::text::{decimal, push_decimal};

verus! {

/// How a type is written with opaque pointers.
pub open spec fn llvm_text(t: LlvmTy) -> Seq<char>
    decreases t, 0nat,
{
    match t {
        LlvmTy::Integer { width } => "i"@ + decimal(width as nat),
        LlvmTy::Pointer { addrspace } => if addrspace != 0 {
            "ptr addrspace("@ + decimal(addrspace as nat) + ")"@
        } else {
            "ptr"@
        },
        LlvmTy::Void => "void"@,
        LlvmTy::Half => "half"@,
        LlvmTy::Float => "float"@,
        LlvmTy::Double => "double"@,
        LlvmTy::Struct { fields } => "{ "@ + llvm_list_text(fields, fields.len()) + " }"@,
        LlvmTy::Array { elem, size } => "["@ + decimal(size as nat) + " x "@ + llvm_text(*elem)
            + "]"@,
        LlvmTy::Vector { elem, num_elements, .. } => "<"@ + decimal(num_elements as nat) + " x "@
            + llvm_text(*elem) + ">"@,
        LlvmTy::Other { display } => "void /* unknown: "@ + display + " */"@,
    }
}

/// How the first `n` types of a list are written.
pub open spec fn llvm_list_text(types: Seq<LlvmTy>, n: nat) -> Seq<char>
    decreases types, n,
{
    if n == 0 || n > types.len() {
        Seq::empty()
    } else if n == 1 {
        llvm_text(types[0])
    } else {
        llvm_list_text(types, (n - 1) as nat) + ", "@ + llvm_text(types[n - 1])
    }
}

/// The largest power of two that is at most `n`, between 1 and 128.
pub open spec fn power_of_two_within(n: nat) -> nat {
    if n >= 128 {
        128
    } else if n >= 64 {
        64
    } else if n >= 32 {
        32
    } else if n >= 16 {
        16
    } else if n >= 8 {
        8
    } else if n >= 4 {
        4
    } else if n >= 2 {
        2
    } else {
        1
    }
}

/// The alignment that a type is printed with when an operation carries none.
/// An integer takes its whole bytes, at least 1.
pub open spec fn abi_alignment(t: LlvmTy) -> nat
    decreases t, 0nat,
{
    match t {
        LlvmTy::Integer { width } => if width <= 8 {
            1
        } else {
            ((width as nat) + 7) / 8
        },
        LlvmTy::Float => 4,
        LlvmTy::Double => 8,
        LlvmTy::Half => 2,
        LlvmTy::Pointer { .. } => 8,
        LlvmTy::Array { elem, .. } => abi_alignment(*elem),
        LlvmTy::Vector { elem, num_elements, .. } => power_of_two_within(
            abi_alignment(*elem) * (num_elements as nat),
        ),
        LlvmTy::Struct { fields } => widest_alignment(fields, fields.len()),
        _ => 8,
    }
}

/// The widest alignment among the first `n` types, at least 1.
pub open spec fn widest_alignment(types: Seq<LlvmTy>, n: nat) -> nat
    decreases types, n,
{
    if n == 0 || n > types.len() {
        1
    } else {
        let rest = widest_alignment(types, (n - 1) as nat);
        let last = abi_alignment(types[n - 1]);
        if rest <= last {
            last
        } else {
            rest
        }
    }
}

proof fn lemma_alignment_bounds(t: LlvmTy)
    ensures
        1 <= abi_alignment(t) <= u32::MAX,
    decreases t, 0nat,
{
    match t {
        LlvmTy::Array { elem, .. } => lemma_alignment_bounds(*elem),
        LlvmTy::Struct { fields } => lemma_widest_bounds(fields, fields.len()),
        _ => {},
    }
}

proof fn lemma_widest_bounds(types: Seq<LlvmTy>, n: nat)
    requires
        n <= types.len(),
    ensures
        1 <= widest_alignment(types, n) <= u32::MAX,
    decreases types, n,
{
    if n > 0 {
        lemma_widest_bounds(types, (n - 1) as nat);
        lemma_alignment_bounds(types[n - 1]);
    }
}

/// How a type is written where no value is at hand.
pub open spec fn type_text(mode: PointerMode, t: LlvmTy) -> Seq<char> {
    if mode == PointerMode::LegacyTyped {
        legacy_text(from_llvm(t))
    } else {
        llvm_text(t)
    }
}

/// How the type of `value` is written.
pub open spec fn value_type_text(
    state: ModuleExportState,
    func: LlvmFunction,
    value: Value,
) -> Seq<char> {
    if state.pointer_mode == PointerMode::LegacyTyped
        && state.legacy_type_facts@.contains_key(value) {
        legacy_text(state.legacy_type_facts@[value])
    } else {
        type_text(state.pointer_mode, func.type_of(value))
    }
}

/// How the types of the first `n` values are written.
pub open spec fn value_types_text(
    state: ModuleExportState,
    func: LlvmFunction,
    values: Seq<Value>,
    n: nat,
) -> Seq<char>
    decreases n,
{
    if n == 0 {
        Seq::empty()
    } else if n == 1 {
        value_type_text(state, func, values[0])
    } else {
        value_types_text(state, func, values, (n - 1) as nat) + ", "@ + value_type_text(
            state,
            func,
            values[n - 1],
        )
    }
}

/// How the first `n` types of a list are written where no values are at hand.
pub open spec fn types_text(mode: PointerMode, types: Seq<LlvmTy>, n: nat) -> Seq<char>
    decreases n,
{
    if n == 0 {
        Seq::empty()
    } else if n == 1 {
        type_text(mode, types[0])
    } else {
        types_text(mode, types, (n - 1) as nat) + ", "@ + type_text(mode, types[n - 1])
    }
}

impl ModuleExportState {
    /// Appends a type with opaque pointers.
    pub fn export_type(&self, ty: &LlvmType, output: &mut String) -> (r: Result<(), String>)
        ensures
            r is Ok,
            final(output)@ == old(output)@ + llvm_text(ty@),
        decreases ty,
    {
        let ghost start = output@;
        match ty {
            LlvmType::Integer { width } => {
                output.append("i");
                push_decimal(output, *width as u64);
            },
            LlvmType::Pointer { addrspace } => {
                if *addrspace != 0 {
                    output.append("ptr addrspace(");
                    push_decimal(output, *addrspace as u64);
                    output.append(")");
                } else {
                    output.append("ptr");
                }
            },
            LlvmType::Void => output.append("void"),
            LlvmType::Half => output.append("half"),
            LlvmType::Float => output.append("float"),
            LlvmType::Double => output.append("double"),
            LlvmType::Struct { fields } => {
                let ghost tys = llvm_tys(fields@);
                output.append("{ ");
                let ghost open = output@;
                assert(open + Seq::<char>::empty() =~= open);
                let mut i: usize = 0;
                while i < fields.len()
                    invariant
                        i <= fields@.len(),
                        decreases_to!(ty => fields@),
                        tys == llvm_tys(fields@),
                        output@ == open + llvm_list_text(tys, i as nat),
                    decreases fields@.len() - i,
                {
                    if i > 0 {
                        output.append(", ");
                    }
                    match self.export_type(&fields[i], output) {
                        Ok(()) => {},
                        Err(e) => {
                            return Err(e);
                        },
                    }
                    assert(tys[i as int] == fields@[i as int]@);
                    i = i + 1;
                    assert(output@ =~= open + llvm_list_text(tys, i as nat));
                }
                output.append(" }");
            },
            LlvmType::Array { elem, size } => {
                output.append("[");
                push_decimal(output, *size);
                output.append(" x ");
                match self.export_type(elem, output) {
                    Ok(()) => {},
                    Err(e) => {
                        return Err(e);
                    },
                }
                output.append("]");
            },
            LlvmType::Vector { elem, num_elements, .. } => {
                output.append("<");
                push_decimal(output, *num_elements as u64);
                output.append(" x ");
                match self.export_type(elem, output) {
                    Ok(()) => {},
                    Err(e) => {
                        return Err(e);
                    },
                }
                output.append(">");
            },
            LlvmType::Other { display } => {
                output.append("void /* unknown: ");
                output.append(display);
                output.append(" */");
            },
        }
        assert(output@ =~= start + llvm_text(ty@));
        Ok(())
    }

    /// Appends a type of which no value is at hand.
    pub fn export_type_without_value(&self, ty: &LlvmType, output: &mut String) -> (r: Result<
        (),
        String,
    >)
        ensures
            r is Ok,
            final(output)@ == old(output)@ + type_text(self.pointer_mode, ty@),
    {
        if self.uses_legacy_typed_pointers() {
            LegacyType::from_llvm_type(ty).write_llvm(output);
            Ok(())
        } else {
            self.export_type(ty, output)
        }
    }

    /// Appends the type of a value.
    pub fn export_value_type(&self, func: &LlvmFunction, val: Value, output: &mut String) -> (r:
        Result<(), String>)
        requires
            val < func.value_types@.len(),
        ensures
            r is Ok,
            final(output)@ == old(output)@ + value_type_text(*self, *func, val),
    {
        if self.uses_legacy_typed_pointers() {
            if let Some(fact) = self.legacy_fact(val) {
                fact.write_llvm(output);
                return Ok(());
            }
        }
        self.export_type_without_value(&func.value_types[val], output)
    }

    /// A reference to the function `name` that is called with `args`, in
    /// typed-pointer syntax.
    pub fn legacy_function_ref(
        &self,
        func: &LlvmFunction,
        name: &str,
        ret_ty: &LlvmType,
        args: &Vec<Value>,
    ) -> (text: String)
        requires
            forall|i: int| 0 <= i < args@.len() ==> #[trigger] args@[i] < func.value_types@.len(),
        ensures
            text@ == type_text(self.pointer_mode, ret_ty@) + " ("@ + value_types_text(
                *self,
                *func,
                args@,
                args@.len(),
            ) + ")* @"@ + name@,
    {
        let mut output = String::new();
        let _ = self.export_type_without_value(ret_ty, &mut output);
        output.append(" (");
        let ghost open = output@;
        assert(open =~= type_text(self.pointer_mode, ret_ty@) + " ("@);
        assert(open + Seq::<char>::empty() =~= open);
        let mut i: usize = 0;
        while i < args.len()
            invariant
                i <= args@.len(),
                forall|k: int|
                    0 <= k < args@.len() ==> #[trigger] args@[k] < func.value_types@.len(),
                output@ == open + value_types_text(*self, *func, args@, i as nat),
            decreases args@.len() - i,
        {
            if i > 0 {
                output.append(", ");
            }
            let _ = self.export_value_type(func, args[i], &mut output);
            i = i + 1;
            assert(output@ =~= open + value_types_text(*self, *func, args@, i as nat));
        }
        output.append(")* @");
        output.append(name);
        output
    }

    /// A reference to the function `name` with these argument types, in
    /// typed-pointer syntax.
    pub fn legacy_decl_function_ref(
        &self,
        name: &str,
        ret_ty: &LlvmType,
        arg_tys: &Vec<LlvmType>,
    ) -> (text: String)
        ensures
            text@ == type_text(self.pointer_mode, ret_ty@) + " ("@ + types_text(
                self.pointer_mode,
                llvm_tys(arg_tys@),
                arg_tys@.len(),
            ) + ")* @"@ + name@,
    {
        let ghost tys = llvm_tys(arg_tys@);
        let mut output = String::new();
        let _ = self.export_type_without_value(ret_ty, &mut output);
        output.append(" (");
        let ghost open = output@;
        assert(open =~= type_text(self.pointer_mode, ret_ty@) + " ("@);
        assert(open + Seq::<char>::empty() =~= open);
        let mut i: usize = 0;
        while i < arg_tys.len()
            invariant
                i <= arg_tys@.len(),
                tys == llvm_tys(arg_tys@),
                output@ == open + types_text(self.pointer_mode, tys, i as nat),
            decreases arg_tys@.len() - i,
        {
            if i > 0 {
                output.append(", ");
            }
            assert(tys[i as int] == arg_tys@[i as int]@);
            let _ = self.export_type_without_value(&arg_tys[i], &mut output);
            i = i + 1;
            assert(output@ =~= open + types_text(self.pointer_mode, tys, i as nat));
        }
        output.append(")* @");
        output.append(name);
        output
    }

    /// Conservative ABI alignment of a type, in bytes: what a load, store or
    /// alloca is printed with when it carries none.
    pub fn natural_alignment(&self, ty: &LlvmType) -> (align: u32)
        ensures
            align == abi_alignment(ty@),
        decreases ty,
    {
        match ty {
            LlvmType::Integer { width } => {
                if *width <= 8 {
                    1
                } else {
                    (*width - 1) / 8 + 1
                }
            },
            LlvmType::Float => 4,
            LlvmType::Double => 8,
            LlvmType::Half => 2,
            LlvmType::Pointer { .. } => 8,
            LlvmType::Array { elem, .. } => self.natural_alignment(elem),
            LlvmType::Vector { elem, num_elements, .. } => {
                let elem_align: u32 = self.natural_alignment(elem);
                assert(elem_align * *num_elements <= u64::MAX) by (nonlinear_arith)
                    requires
                        elem_align <= u32::MAX,
                        *num_elements <= u32::MAX,
                ;
                let total: u64 = elem_align as u64 * *num_elements as u64;
                let mut a: u32 = 1;
                while a < 128 && (a * 2) as u64 <= total
                    invariant
                        a == 1 || a == 2 || a == 4 || a == 8 || a == 16 || a == 32 || a == 64 || a
                            == 128,
                        a == 1 || a <= total,
                    decreases 128 - a,
                {
                    a = a * 2;
                }
                a
            },
            LlvmType::Struct { fields } => {
                let ghost tys = llvm_tys(fields@);
                let mut widest: u32 = 1;
                let mut i: usize = 0;
                while i < fields.len()
                    invariant
                        i <= fields@.len(),
                        decreases_to!(ty => fields@),
                        tys == llvm_tys(fields@),
                        widest == widest_alignment(tys, i as nat),
                    decreases fields@.len() - i,
                {
                    assert(tys[i as int] == fields@[i as int]@);
                    let a: u32 = self.natural_alignment(&fields[i]);
                    if widest <= a {
                        widest = a;
                    }
                    i = i + 1;
                }
                widest
            },
            _ => 8,
        }
    }
}

} // verus!
