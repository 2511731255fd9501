//! The universal-function table: its entries and the handle that locates
//! them.
//!
//! NumPy publishes its universal-function interface as a table of pointers,
//! one slot per entry, in an order that is fixed for a major version. Slot
//! zero holds the type object of universal functions; every other slot holds
//! a function. The handle computes where each slot lies. Reading a slot and
//! calling through it are left to the caller, who alone can vouch for the
//! table that the interpreter handed out.

use crate::layout::lemma_slot_address_exact;
use crate::layout::lemma_slots_apart;
use crate::layout::slot_address;
use crate::layout::slot_start;
use crate::layout::spec_pointer_width;
use crate::layout::spec_slot_address;
use crate::layout::table_fits;
use crate::resolver::conclude;
use crate::resolver::look_up;
use crate::resolver::spec_table_base;
use crate::resolver::ApiTable;
use crate::resolver::ImportError;
use crate::resolver::Lookup;
use pyo3::types::PyModule;
use pyo3::Py;
use pyo3::Python;
use vstd::prelude::*;

verus! {

/// The module that exports the table.
pub const UMATH_MODULE: &'static str = "numpy.core.umath";

/// The attribute of the module that holds the table, in a capsule.
pub const UFUNC_CAPSULE: &'static str = "_UFUNC_API";

/// The slot that holds the type object of universal functions.
pub const TYPE_SLOT: usize = 0;

/// The number of slots that the handle knows: the type slot and one for each
/// function.
pub const TABLE_SLOTS: usize = 42;

/// The functions of the table, each under the name that NumPy gives it.
#[allow(non_camel_case_types)]
#[derive(Clone, Copy, Debug, PartialEq, Eq)]
pub enum UFuncEntry {
    PyUFunc_FromFuncAndData,
    PyUFunc_RegisterLoopForType,
    PyUFunc_GenericFunction,
    PyUFunc_f_f_As_d_d,
    PyUFunc_d_d,
    PyUFunc_f_f,
    PyUFunc_g_g,
    PyUFunc_F_F_As_D_D,
    PyUFunc_F_F,
    PyUFunc_D_D,
    PyUFunc_G_G,
    PyUFunc_O_O,
    PyUFunc_ff_f_As_dd_d,
    PyUFunc_ff_f,
    PyUFunc_dd_d,
    PyUFunc_gg_g,
    PyUFunc_FF_F_As_DD_D,
    PyUFunc_DD_D,
    PyUFunc_FF_F,
    PyUFunc_GG_G,
    PyUFunc_OO_O,
    PyUFunc_O_O_method,
    PyUFunc_OO_O_method,
    PyUFunc_On_Om,
    PyUFunc_GetPyValues,
    PyUFunc_checkfperr,
    PyUFunc_clearfperr,
    PyUFunc_getfperr,
    PyUFunc_handlefperr,
    PyUFunc_ReplaceLoopBySignature,
    PyUFunc_FromFuncAndDataAndSignature,
    PyUFunc_SetUsesArraysAsData,
    PyUFunc_e_e,
    PyUFunc_e_e_As_f_f,
    PyUFunc_e_e_As_d_d,
    PyUFunc_ee_e,
    PyUFunc_ee_e_As_ff_f,
    PyUFunc_ee_e_As_dd_d,
    PyUFunc_DefaultTypeResolver,
    PyUFunc_ValidateCasting,
    PyUFunc_RegisterLoopForDescr,
}

impl UFuncEntry {
    /// The slot of the table that holds the function.
    pub open spec fn spec_offset(self) -> usize {
        match self {
            UFuncEntry::PyUFunc_FromFuncAndData => 1,
            UFuncEntry::PyUFunc_RegisterLoopForType => 2,
            UFuncEntry::PyUFunc_GenericFunction => 3,
            UFuncEntry::PyUFunc_f_f_As_d_d => 4,
            UFuncEntry::PyUFunc_d_d => 5,
            UFuncEntry::PyUFunc_f_f => 6,
            UFuncEntry::PyUFunc_g_g => 7,
            UFuncEntry::PyUFunc_F_F_As_D_D => 8,
            UFuncEntry::PyUFunc_F_F => 9,
            UFuncEntry::PyUFunc_D_D => 10,
            UFuncEntry::PyUFunc_G_G => 11,
            UFuncEntry::PyUFunc_O_O => 12,
            UFuncEntry::PyUFunc_ff_f_As_dd_d => 13,
            UFuncEntry::PyUFunc_ff_f => 14,
            UFuncEntry::PyUFunc_dd_d => 15,
            UFuncEntry::PyUFunc_gg_g => 16,
            UFuncEntry::PyUFunc_FF_F_As_DD_D => 17,
            UFuncEntry::PyUFunc_DD_D => 18,
            UFuncEntry::PyUFunc_FF_F => 19,
            UFuncEntry::PyUFunc_GG_G => 20,
            UFuncEntry::PyUFunc_OO_O => 21,
            UFuncEntry::PyUFunc_O_O_method => 22,
            UFuncEntry::PyUFunc_OO_O_method => 23,
            UFuncEntry::PyUFunc_On_Om => 24,
            UFuncEntry::PyUFunc_GetPyValues => 25,
            UFuncEntry::PyUFunc_checkfperr => 26,
            UFuncEntry::PyUFunc_clearfperr => 27,
            UFuncEntry::PyUFunc_getfperr => 28,
            UFuncEntry::PyUFunc_handlefperr => 29,
            UFuncEntry::PyUFunc_ReplaceLoopBySignature => 30,
            UFuncEntry::PyUFunc_FromFuncAndDataAndSignature => 31,
            UFuncEntry::PyUFunc_SetUsesArraysAsData => 32,
            UFuncEntry::PyUFunc_e_e => 33,
            UFuncEntry::PyUFunc_e_e_As_f_f => 34,
            UFuncEntry::PyUFunc_e_e_As_d_d => 35,
            UFuncEntry::PyUFunc_ee_e => 36,
            UFuncEntry::PyUFunc_ee_e_As_ff_f => 37,
            UFuncEntry::PyUFunc_ee_e_As_dd_d => 38,
            UFuncEntry::PyUFunc_DefaultTypeResolver => 39,
            UFuncEntry::PyUFunc_ValidateCasting => 40,
            UFuncEntry::PyUFunc_RegisterLoopForDescr => 41,
        }
    }

    /// The slot of the table that holds the function. It is never the type
    /// slot and always one that the handle knows.
    #[verifier::when_used_as_spec(spec_offset)]
    pub fn offset(self) -> (slot: usize)
        ensures
            slot == self.spec_offset(),
            TYPE_SLOT < slot < TABLE_SLOTS,
    {
        match self {
            UFuncEntry::PyUFunc_FromFuncAndData => 1,
            UFuncEntry::PyUFunc_RegisterLoopForType => 2,
            UFuncEntry::PyUFunc_GenericFunction => 3,
            UFuncEntry::PyUFunc_f_f_As_d_d => 4,
            UFuncEntry::PyUFunc_d_d => 5,
            UFuncEntry::PyUFunc_f_f => 6,
            UFuncEntry::PyUFunc_g_g => 7,
            UFuncEntry::PyUFunc_F_F_As_D_D => 8,
            UFuncEntry::PyUFunc_F_F => 9,
            UFuncEntry::PyUFunc_D_D => 10,
            UFuncEntry::PyUFunc_G_G => 11,
            UFuncEntry::PyUFunc_O_O => 12,
            UFuncEntry::PyUFunc_ff_f_As_dd_d => 13,
            UFuncEntry::PyUFunc_ff_f => 14,
            UFuncEntry::PyUFunc_dd_d => 15,
            UFuncEntry::PyUFunc_gg_g => 16,
            UFuncEntry::PyUFunc_FF_F_As_DD_D => 17,
            UFuncEntry::PyUFunc_DD_D => 18,
            UFuncEntry::PyUFunc_FF_F => 19,
            UFuncEntry::PyUFunc_GG_G => 20,
            UFuncEntry::PyUFunc_OO_O => 21,
            UFuncEntry::PyUFunc_O_O_method => 22,
            UFuncEntry::PyUFunc_OO_O_method => 23,
            UFuncEntry::PyUFunc_On_Om => 24,
            UFuncEntry::PyUFunc_GetPyValues => 25,
            UFuncEntry::PyUFunc_checkfperr => 26,
            UFuncEntry::PyUFunc_clearfperr => 27,
            UFuncEntry::PyUFunc_getfperr => 28,
            UFuncEntry::PyUFunc_handlefperr => 29,
            UFuncEntry::PyUFunc_ReplaceLoopBySignature => 30,
            UFuncEntry::PyUFunc_FromFuncAndDataAndSignature => 31,
            UFuncEntry::PyUFunc_SetUsesArraysAsData => 32,
            UFuncEntry::PyUFunc_e_e => 33,
            UFuncEntry::PyUFunc_e_e_As_f_f => 34,
            UFuncEntry::PyUFunc_e_e_As_d_d => 35,
            UFuncEntry::PyUFunc_ee_e => 36,
            UFuncEntry::PyUFunc_ee_e_As_ff_f => 37,
            UFuncEntry::PyUFunc_ee_e_As_dd_d => 38,
            UFuncEntry::PyUFunc_DefaultTypeResolver => 39,
            UFuncEntry::PyUFunc_ValidateCasting => 40,
            UFuncEntry::PyUFunc_RegisterLoopForDescr => 41,
        }
    }

    /// Every function has a slot after the type slot and within the table.
    pub proof fn lemma_offset_in_table(self)
        ensures
            TYPE_SLOT < self.spec_offset() < TABLE_SLOTS,
    {
    }

    /// No two functions share a slot.
    pub proof fn lemma_offsets_distinct(self, other: UFuncEntry)
        requires
            self != other,
        ensures
            self.spec_offset() != other.spec_offset(),
    {
    }
}

/// A handle on the table of a loaded module.
///
/// It holds the module, which keeps the table alive, and the address of the
/// table's first slot. Neither changes once the handle is made.
pub struct PyUFuncModule {
    numpy: Py<PyModule>,
    api: usize,
}

impl PyUFuncModule {
    /// The module that owns the table.
    pub closed spec fn spec_module(&self) -> Py<PyModule> {
        self.numpy
    }

    /// The address of the table's first slot.
    pub closed spec fn spec_base_address(&self) -> usize {
        self.api
    }

    /// The address of the slot that holds `entry`.
    pub open spec fn spec_entry_address(&self, entry: UFuncEntry) -> usize {
        spec_slot_address(self.spec_base_address(), entry.spec_offset())
    }

    /// The address of the slot that holds the type object.
    pub open spec fn spec_type_address(&self) -> usize {
        spec_slot_address(self.spec_base_address(), TYPE_SLOT)
    }

    /// Whether all the slots that the handle knows lie within the machine's
    /// addresses.
    pub open spec fn fits(&self) -> bool {
        table_fits(self.spec_base_address(), TABLE_SLOTS as int)
    }

    /// Makes the handle of a resolved table.
    pub fn from_table(table: ApiTable) -> (handle: Self)
        ensures
            handle.spec_module() == table.module,
            handle.spec_base_address() == table.base,
    {
        PyUFuncModule { numpy: table.module, api: table.base }
    }

    /// Whether `outcome` is what a lookup gives: the error of a module or an
    /// attribute that was not found, with the exception that was raised, and
    /// else the handle of the module at the base that the payload stands for.
    pub open spec fn spec_built_from(lookup: Lookup, outcome: Result<Self, ImportError>) -> bool {
        match lookup {
            Lookup::NoModule(raised) => outcome matches Err(ImportError::Module(exception))
                && exception == raised,
            Lookup::NoAttribute(raised) => outcome matches Err(ImportError::Attribute(exception))
                && exception == raised,
            Lookup::Found(module, payload) => outcome matches Ok(handle) && handle.spec_module()
                == module && handle.spec_base_address() == spec_table_base(payload),
        }
    }

    /// Makes of a lookup the handle or the error.
    ///
    /// It fails exactly where the module or the attribute was not found, with
    /// Python's own exception. An attribute that was found gives a handle
    /// whatever it holds: without a payload, one on the null base.
    pub fn from_lookup(lookup: Lookup) -> (outcome: Result<Self, ImportError>)
        ensures
            Self::spec_built_from(lookup, outcome),
            outcome is Err <==> lookup is NoModule || lookup is NoAttribute,
    {
        match conclude(lookup) {
            Ok(table) => Ok(Self::from_table(table)),
            Err(error) => Err(error),
        }
    }

    /// Imports `numpy.core.umath` and resolves the table in its capsule
    /// `_UFUNC_API`.
    ///
    /// Whether the module and the capsule are found is for the interpreter to
    /// say. The outcome is what `from_lookup` makes of some lookup that the
    /// interpreter can answer with.
    pub fn import(py: Python<'_>) -> (outcome: Result<Self, ImportError>)
        ensures
            exists|lookup: Lookup| #[trigger]
                Self::spec_built_from(lookup, outcome) && (lookup matches Lookup::Found(
                    _,
                    payload,
                ) ==> payload != Some(0usize)),
    {
        Self::from_lookup(look_up(py, UMATH_MODULE, UFUNC_CAPSULE))
    }

    /// The address of the table's first slot.
    #[verifier::when_used_as_spec(spec_base_address)]
    pub fn base_address(&self) -> (base: usize)
        ensures
            base == self.spec_base_address(),
    {
        self.api
    }

    /// The address of the slot that holds `entry`: the slot's offset in
    /// pointer widths past the base.
    #[verifier::when_used_as_spec(spec_entry_address)]
    pub fn entry_address(&self, entry: UFuncEntry) -> (address: usize)
        ensures
            address == self.spec_entry_address(entry),
    {
        slot_address(self.api, entry.offset())
    }

    /// The address of the slot that holds the type object of universal
    /// functions: the base itself.
    #[verifier::when_used_as_spec(spec_type_address)]
    pub fn type_address(&self) -> (address: usize)
        ensures
            address == self.spec_type_address(),
            address == self.spec_base_address(),
    {
        proof {
            self.lemma_type_slot_is_first();
        }
        self.api
    }

    /// The type object is read from the first slot of the table, the one at
    /// the base, whatever the base is.
    pub proof fn lemma_type_slot_is_first(&self)
        ensures
            self.spec_type_address() == spec_slot_address(self.spec_base_address(), 0),
            self.spec_type_address() == self.spec_base_address(),
    {
        vstd::arithmetic::div_mod::lemma_small_mod(
            self.spec_base_address() as nat,
            crate::layout::address_space() as nat,
        );
    }

    /// Where a function lies depends on the base and the function alone: two
    /// handles on the same table give the same address for the same function.
    pub proof fn lemma_entry_address_stable(&self, other: &PyUFuncModule, entry: UFuncEntry)
        requires
            self.spec_base_address() == other.spec_base_address(),
        ensures
            self.spec_entry_address(entry) == other.spec_entry_address(entry),
    {
    }

    /// In a table that fits in the address space, a function lies its offset
    /// in pointer widths past the base, and so past the slot of the type
    /// object: a function is never read from the slot of the type object.
    pub proof fn lemma_entry_past_type_slot(&self, entry: UFuncEntry)
        requires
            self.fits(),
        ensures
            self.spec_entry_address(entry) == slot_start(
                self.spec_base_address(),
                entry.spec_offset() as int,
            ),
            self.spec_type_address() + spec_pointer_width() <= self.spec_entry_address(entry),
    {
        let base = self.spec_base_address();
        let slot = entry.spec_offset();
        entry.lemma_offset_in_table();
        assert(table_fits(base, slot + 1)) by (nonlinear_arith)
            requires
                slot + 1 <= TABLE_SLOTS,
                table_fits(base, TABLE_SLOTS as int),
                spec_pointer_width() > 0,
        ;
        lemma_slot_address_exact(base, slot);
        lemma_slots_apart(base, 0, slot);
    }

    /// In a table that fits in the address space, the slots of two different
    /// functions do not overlap.
    pub proof fn lemma_entries_apart(&self, first: UFuncEntry, second: UFuncEntry)
        requires
            self.fits(),
            first != second,
        ensures
            self.spec_entry_address(first) + spec_pointer_width() <= self.spec_entry_address(
                second,
            ) || self.spec_entry_address(second) + spec_pointer_width()
                <= self.spec_entry_address(first),
    {
        let base = self.spec_base_address();
        let low = first.spec_offset();
        let high = second.spec_offset();
        first.lemma_offset_in_table();
        second.lemma_offset_in_table();
        first.lemma_offsets_distinct(second);
        assert(table_fits(base, low + 1) && table_fits(base, high + 1)) by (nonlinear_arith)
            requires
                low + 1 <= TABLE_SLOTS,
                high + 1 <= TABLE_SLOTS,
                table_fits(base, TABLE_SLOTS as int),
                spec_pointer_width() > 0,
        ;
        if low < high {
            lemma_slots_apart(base, low, high);
        } else {
            lemma_slots_apart(base, high, low);
        }
    }
}

impl core::ops::Deref for PyUFuncModule {
    type Target = Py<PyModule>;

    /// The module that owns the table.
    fn deref(&self) -> (module: &Py<PyModule>)
        ensures
            *module == self.spec_module(),
    {
        &self.numpy
    }
}

} // verus!
