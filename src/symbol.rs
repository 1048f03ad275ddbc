use vstd::prelude::*;

use vstd::string::StringSliceAdditionalSpecFns;

use crate::error::ProxyError;

verus! {

/// True when the byte sequence holds a NUL byte anywhere.
pub open spec fn has_nul(bytes: Seq<u8>) -> bool {
    exists|i: int| 0 <= i < bytes.len() && bytes[i] == 0
}

/// Whether `s` can be passed to the platform as a NUL-terminated narrow string.
pub fn is_c_compatible(s: &str) -> (r: bool)
    ensures
        r == !has_nul(s.spec_bytes()),
{
    let bytes = s.as_bytes();
    let mut i: usize = 0;
    while i < bytes.len()
        invariant
            bytes@ == s.spec_bytes(),
            0 <= i <= bytes@.len(),
            forall|j: int| 0 <= j < i ==> bytes@[j] != 0,
        decreases bytes@.len() - i,
    {
        if bytes[i] == 0 {
            return false;
        }
        i = i + 1;
    }
    true
}

/// A successfully loaded native module, identified by its base address.
#[derive(Clone, Copy, PartialEq, Eq, Structural, Debug)]
pub struct ModuleHandle {
    pub base: usize,
}

impl ModuleHandle {
    /// A handle is never null.
    pub open spec fn wf(self) -> bool {
        self.base != 0
    }
}

/// How a symbol was located in its module.
#[derive(Clone, Debug)]
pub enum SymbolKey {
    /// Through the module's export table.
    Name(String),
    /// As a raw byte offset from the module's base address.
    Offset(usize),
}

/// A callable address bound to the module it belongs to and the key it was found by.
#[derive(Clone, Debug)]
pub struct ResolvedSymbol {
    pub module: ModuleHandle,
    pub address: usize,
    pub key: SymbolKey,
}

/// The address found at `offset` bytes past `base`, computed with address-width wraparound.
pub open spec fn offset_address(base: usize, offset: usize) -> usize {
    ((base as int + offset as int) % (usize::MAX as int + 1)) as usize
}

/// Binds the address that the platform's export lookup returned for `name` in `module`.
/// `found` is that lookup's result, 0 when the export table has no such entry.
pub fn resolve_by_name(module: ModuleHandle, name: &str, found: usize) -> (r: Result<
    ResolvedSymbol,
    ProxyError,
>)
    ensures
        found != 0 <==> r is Ok,
        r matches Ok(sym) ==> (sym.module == module && sym.address == found && (
        sym.key matches SymbolKey::Name(n) && n@ == name@)),
        r matches Err(e) ==> (e matches ProxyError::SymbolNotFound { name: n } && n@ == name@),
{
    if found == 0 {
        Err(ProxyError::SymbolNotFound { name: name.to_owned() })
    } else {
        Ok(ResolvedSymbol { module, address: found, key: SymbolKey::Name(name.to_owned()) })
    }
}

/// Computes `base + offset` in the module without any table lookup or bounds check.
/// Whether a function of the expected shape lives there is the integrator's responsibility.
pub fn resolve_by_offset(module: Option<ModuleHandle>, offset: usize) -> (r: Option<
    ResolvedSymbol,
>)
    ensures
        r is Some <==> module is Some,
        r matches Some(sym) ==> (sym.module == module.unwrap() && sym.address == offset_address(
            module.unwrap().base,
            offset,
        ) && sym.key == SymbolKey::Offset(offset)),
{
    match module {
        None => None,
        Some(m) => {
            let address = m.base.wrapping_add(offset);
            Some(ResolvedSymbol { module: m, address, key: SymbolKey::Offset(offset) })
        },
    }
}

} // verus!
