use vstd::prelude::*;
use vstd::string::{is_ascii_spec_bytes, StringSliceAdditionalSpecFns};

use crate::codes::{ERROR_MORE_DATA, ERROR_SUCCESS, FALSE, TRUE};
use crate::error::ProxyError;
use crate::proxy::{ProxyState, ENTRY_POINT_NAME};
use crate::symbol::{has_nul, offset_address, ResolvedSymbol};
use crate::wide::{
    contains_units, contains_wide, le_bytes_of, to_le_bytes, to_wide, to_wide_c, units_equal,
    wide_c_of, wide_of, write_within_capacity, written,
};

verus! {

/// Offset of the example internal function from the original module's base.
pub const INTERNAL_EXAMPLE_OFFSET: usize = 0x1234;

/// Offset of the original module's internal initialization function.
pub const INIT_FN_OFFSET: usize = 0x1000;

/// Offset of the original module's internal cleanup function.
pub const CLEANUP_FN_OFFSET: usize = 0x2000;

/// Deletion of any file whose path holds this text is blocked.
pub const PROTECTED_FILE_MARKER: &'static str = "important_file";

/// The user name reported in place of the real one.
pub const SPOOFED_USER_NAME: &'static str = "CustomUser";

/// The registry value whose data is replaced.
pub const SPOOFED_VALUE_NAME: &'static str = "HwProfileGuid";

/// The data reported for that registry value.
pub const SPOOFED_GUID: &'static str = "{AAAAAAAA-AAAA-AAAA-AAAA-AAAAAAAAAAAA}";

/// Resolves the example internal function at its fixed offset in the original module.
pub fn hook_internal_function_example(state: &ProxyState) -> (r: Option<ResolvedSymbol>)
    ensures
        r is Some <==> state.module is Some,
        r matches Some(sym) ==> sym.address == offset_address(
            state.module.unwrap().base,
            INTERNAL_EXAMPLE_OFFSET,
        ),
{
    state.resolve_internal_function(INTERNAL_EXAMPLE_OFFSET)
}

/// Resolves the original module's exported entry point by name; `found` is what the
/// platform's export lookup returned for it (0 when absent).
pub fn hook_exported_function_example(state: &ProxyState, found: usize) -> (r: Option<
    ResolvedSymbol,
>)
    ensures
        r is Some <==> (state.module is Some && found != 0),
        r matches Some(sym) ==> sym.address == found,
{
    proof {
        reveal_strlit("DllMain");
        is_ascii_spec_bytes(ENTRY_POINT_NAME);
        assert(!has_nul(ENTRY_POINT_NAME.spec_bytes()));
    }
    state.get_original_export(ENTRY_POINT_NAME, found)
}

/// Stand-in for file deletion: blocks (failure code) any path that holds the protected
/// marker and reports success for every other path. `file_name` holds the path's
/// 16-bit units without the terminator.
pub fn hooked_delete_file_w(file_name: &[u16]) -> (r: i32)
    ensures
        r == (if contains_units(file_name@, wide_of(PROTECTED_FILE_MARKER@)) {
            FALSE
        } else {
            TRUE
        }),
{
    let marker = to_wide(PROTECTED_FILE_MARKER);
    if contains_wide(file_name, marker.as_slice()) {
        FALSE
    } else {
        TRUE
    }
}

/// Stand-in for the user-name query: offers the spoofed name (with its terminator) to
/// a caller buffer of declared capacity `*size`. The required size is always reported
/// back in `*size`; the name is written only when it fits, and then success is returned.
pub fn hooked_get_user_name_w(buffer: &mut Vec<u16>, size: &mut u32) -> (r: i32)
    requires
        *old(size) as int <= old(buffer)@.len(),
    ensures
        *final(size) as int == wide_c_of(SPOOFED_USER_NAME@).len(),
        r == (if wide_c_of(SPOOFED_USER_NAME@).len() <= *old(size) {
            TRUE
        } else {
            FALSE
        }),
        final(buffer)@ == written(old(buffer)@, wide_c_of(SPOOFED_USER_NAME@), *old(size) as int),
{
    proof {
        reveal_strlit("CustomUser");
    }
    let name = to_wide_c(SPOOFED_USER_NAME);
    assert(name@.len() == 11);
    let fits = write_within_capacity(name.as_slice(), buffer, *size as usize);
    *size = name.len() as u32;
    if fits {
        TRUE
    } else {
        FALSE
    }
}

/// The bytes reported for the spoofed registry value: its text as 16-bit
/// little-endian units with a terminator.
pub open spec fn spoofed_guid_bytes() -> Seq<u8> {
    le_bytes_of(wide_c_of(SPOOFED_GUID@))
}

/// Stand-in for the registry value query. For the spoofed value it reports the size of
/// the substitute data in `*data_size`; when a data buffer is present (`data_present`)
/// of declared capacity `*data_size`, the data is written if it fits and the
/// buffer-too-small code is returned otherwise. Every other value is left alone.
pub fn hooked_reg_query_value_ex_w(
    value_name: &[u16],
    data: &mut Vec<u8>,
    data_present: bool,
    data_size: &mut u32,
) -> (r: i32)
    requires
        data_present ==> *old(data_size) as int <= old(data)@.len(),
    ensures
        value_name@ != wide_of(SPOOFED_VALUE_NAME@) ==> (r == ERROR_SUCCESS && final(data)@ == old(
            data,
        )@ && *final(data_size) == *old(data_size)),
        value_name@ == wide_of(SPOOFED_VALUE_NAME@) ==> ({
            &&& *final(data_size) as int == spoofed_guid_bytes().len()
            &&& final(data)@ == (if data_present {
                written(old(data)@, spoofed_guid_bytes(), *old(data_size) as int)
            } else {
                old(data)@
            })
            &&& r == (if data_present && spoofed_guid_bytes().len() > *old(data_size) {
                ERROR_MORE_DATA
            } else {
                ERROR_SUCCESS
            })
        }),
{
    let target = to_wide(SPOOFED_VALUE_NAME);
    if !units_equal(value_name, target.as_slice()) {
        return ERROR_SUCCESS;
    }
    proof {
        reveal_strlit("{AAAAAAAA-AAAA-AAAA-AAAA-AAAAAAAAAAAA}");
    }
    let units = to_wide_c(SPOOFED_GUID);
    let bytes = to_le_bytes(units.as_slice());
    assert(bytes@.len() == 78);
    let mut r = ERROR_SUCCESS;
    if data_present {
        let fits = write_within_capacity(bytes.as_slice(), data, *data_size as usize);
        if !fits {
            r = ERROR_MORE_DATA;
        }
    }
    *data_size = bytes.len() as u32;
    r
}

/// The original functions that stand-ins may call through to.
#[derive(Clone, Copy, PartialEq, Eq, Structural, Debug)]
pub enum HookRole {
    DeleteFile,
    UserName,
    RegistryQuery,
    InternalInit,
    InternalCleanup,
}

/// The resolved address of the real implementation for each role, when known.
#[derive(Clone, Copy, PartialEq, Eq, Structural, Debug)]
pub struct OriginalFunctions {
    pub delete_file_w: Option<usize>,
    pub get_user_name_w: Option<usize>,
    pub reg_query_value_ex_w: Option<usize>,
    pub internal_init_fn: Option<usize>,
    pub internal_cleanup_fn: Option<usize>,
}

impl OriginalFunctions {
    /// The slot of `role`.
    pub open spec fn slot(self, role: HookRole) -> Option<usize> {
        match role {
            HookRole::DeleteFile => self.delete_file_w,
            HookRole::UserName => self.get_user_name_w,
            HookRole::RegistryQuery => self.reg_query_value_ex_w,
            HookRole::InternalInit => self.internal_init_fn,
            HookRole::InternalCleanup => self.internal_cleanup_fn,
        }
    }

    /// No original function is known.
    pub fn new() -> (r: Self)
        ensures
            forall|role: HookRole| #[trigger] r.slot(role) is None,
    {
        OriginalFunctions {
            delete_file_w: None,
            get_user_name_w: None,
            reg_query_value_ex_w: None,
            internal_init_fn: None,
            internal_cleanup_fn: None,
        }
    }

    /// The real implementation for `role`, when known.
    pub fn original(&self, role: HookRole) -> (r: Option<usize>)
        ensures
            r == self.slot(role),
    {
        match role {
            HookRole::DeleteFile => self.delete_file_w,
            HookRole::UserName => self.get_user_name_w,
            HookRole::RegistryQuery => self.reg_query_value_ex_w,
            HookRole::InternalInit => self.internal_init_fn,
            HookRole::InternalCleanup => self.internal_cleanup_fn,
        }
    }

    /// Records `symbol` as the real implementation for `role`; a later
    /// registration for the same role replaces an earlier one.
    pub fn register(&mut self, role: HookRole, symbol: &ResolvedSymbol)
        ensures
            final(self).slot(role) == Some(symbol.address),
            forall|other: HookRole| other != role ==> #[trigger] final(self).slot(other) == old(
                self,
            ).slot(other),
    {
        let a = Some(symbol.address);
        match role {
            HookRole::DeleteFile => self.delete_file_w = a,
            HookRole::UserName => self.get_user_name_w = a,
            HookRole::RegistryQuery => self.reg_query_value_ex_w = a,
            HookRole::InternalInit => self.internal_init_fn = a,
            HookRole::InternalCleanup => self.internal_cleanup_fn = a,
        }
    }

    /// Resolves the internal initialization and cleanup functions at their offsets in
    /// the loaded original module. While no module is loaded both stay unknown.
    pub fn initialize_detours(&mut self, state: &ProxyState) -> (r: Result<(), ProxyError>)
        ensures
            r is Ok,
            final(self).internal_init_fn == (match state.module {
                Some(m) => Some(offset_address(m.base, INIT_FN_OFFSET)),
                None => None,
            }),
            final(self).internal_cleanup_fn == (match state.module {
                Some(m) => Some(offset_address(m.base, CLEANUP_FN_OFFSET)),
                None => None,
            }),
            final(self).delete_file_w == old(self).delete_file_w,
            final(self).get_user_name_w == old(self).get_user_name_w,
            final(self).reg_query_value_ex_w == old(self).reg_query_value_ex_w,
    {
        self.internal_init_fn =
        match state.resolve_internal_function(INIT_FN_OFFSET) {
            Some(sym) => Some(sym.address),
            None => None,
        };
        self.internal_cleanup_fn =
        match state.resolve_internal_function(CLEANUP_FN_OFFSET) {
            Some(sym) => Some(sym.address),
            None => None,
        };
        Ok(())
    }

    /// The address to call for the original internal initialization, or
    /// `OriginalEntryPointUnresolved` when it was never resolved.
    pub fn call_original_init(&self) -> (r: Result<usize, ProxyError>)
        ensures
            r is Ok <==> self.internal_init_fn is Some,
            r matches Ok(a) ==> Some(a) == self.internal_init_fn,
            r matches Err(e) ==> e == ProxyError::OriginalEntryPointUnresolved,
    {
        match self.internal_init_fn {
            Some(a) => Ok(a),
            None => Err(ProxyError::OriginalEntryPointUnresolved),
        }
    }
}

/// Interprets the code returned by the original internal initialization: zero is failure.
pub fn check_original_init_result(result: i32) -> (r: Result<(), ProxyError>)
    ensures
        r is Ok <==> result != 0,
        r matches Err(e) ==> e == ProxyError::OriginalCallFailed,
{
    if result == 0 {
        Err(ProxyError::OriginalCallFailed)
    } else {
        Ok(())
    }
}

} // verus!
