//! The generation plan for an exported interface: which entry points, which
//! converter and which descriptors the boundary gets, and which interfaces are
//! refused.
use vstd::prelude::*;
use vstd::string::StringSliceAdditionalSpecFns;
use crate::symbols::{
    clone_fn_symbol_name, clone_symbol, free_fn_symbol_name, free_symbol, interface_meta_buffer,
    interface_type_meta,
};

verus! {

/// The arguments of the export attribute that matter for an interface.
#[derive(Debug, Clone, PartialEq, Eq)]
pub struct ExportAttributeArguments {
    /// The async runtime named in the attribute, if any.
    pub async_runtime: Option<String>,
    /// Whether the interface is only implemented in native code, for use
    /// from other native crates.
    pub rust_impl_only: bool,
}

/// One item of an interface as written.
#[derive(Debug, Clone, PartialEq, Eq)]
pub enum ImplItem {
    Method { name: String, is_async: bool },
    Constructor { name: String },
}

/// Why an interface cannot be exported.
#[derive(Debug, PartialEq, Eq, Structural, Clone, Copy)]
pub enum GenError {
    /// An async runtime was named for an interface.
    AsyncRuntime,
    /// The item at `index` is an async method.
    AsyncMethod { index: usize },
    /// The item at `index` is a constructor.
    Constructor { index: usize },
    /// A module path or a name does not fit a type descriptor (256 bytes or
    /// more).
    NameTooLong,
}

/// How the converter rebuilds a shared reference from a handle.
#[derive(Debug, PartialEq, Eq, Structural, Clone, Copy)]
pub enum LiftKind {
    /// The handle is a foreign identifier, wrapped in a forwarding object.
    ForeignCallback,
    /// The handle is a cell holding a shared reference; a clone of it is
    /// taken and the cell is left in place.
    SharedCell,
}

/// The value converter of an interface.
#[derive(Debug, Clone, PartialEq, Eq)]
pub struct FfiConverter {
    pub lift: LiftKind,
    /// Whether the converter is implemented for this crate's own tag only.
    pub local_tag: bool,
    /// The type descriptor that binding generators read.
    pub type_meta: Vec<u8>,
}

/// Everything that is generated for one exported interface.
#[derive(Debug, Clone, PartialEq, Eq)]
pub struct TraitScaffolding {
    /// The interface descriptor, with its doc string; not emitted in UDL mode.
    pub interface_docstring: Option<String>,
    /// The clone entry point, in full mode only.
    pub clone_symbol: Option<String>,
    /// The free entry point.
    pub free_symbol: String,
    /// Whether a forwarding implementation for foreign callers is generated.
    pub callback_impl: bool,
    /// The methods, in dispatch order.
    pub methods: Vec<String>,
    pub converter: FfiConverter,
}

/// Whether an item can be exported on an interface.
pub open spec fn item_ok(it: ImplItem) -> bool {
    match it {
        ImplItem::Method { is_async, .. } => !is_async,
        ImplItem::Constructor { .. } => false,
    }
}

/// The error for an item at `i` that cannot be exported.
pub open spec fn item_error(it: ImplItem, i: int) -> GenError {
    match it {
        ImplItem::Method { .. } => GenError::AsyncMethod { index: i as usize },
        ImplItem::Constructor { .. } => GenError::Constructor { index: i as usize },
    }
}

pub open spec fn item_name(it: ImplItem) -> Seq<char> {
    match it {
        ImplItem::Method { name, .. } => name@,
        ImplItem::Constructor { name } => name@,
    }
}

/// `i` is the first item that cannot be exported.
pub open spec fn first_bad(items: Seq<ImplItem>, i: int) -> bool {
    &&& 0 <= i < items.len()
    &&& !item_ok(items[i])
    &&& forall|j: int| 0 <= j < i ==> item_ok(#[trigger] items[j])
}

pub open spec fn all_ok(items: Seq<ImplItem>) -> bool {
    forall|i: int| 0 <= i < items.len() ==> item_ok(#[trigger] items[i])
}

/// `names` are the names of `items`, in order.
pub open spec fn names_of(names: Seq<String>, items: Seq<ImplItem>) -> bool {
    &&& names.len() == items.len()
    &&& forall|i: int| 0 <= i < items.len() ==> (#[trigger] names[i])@ == item_name(items[i])
}

/// The method names of `items`, in order; or the error for the first item that
/// cannot be exported.
pub fn method_names(items: &Vec<ImplItem>) -> (r: Result<Vec<String>, GenError>)
    ensures
        r is Ok <==> all_ok(items@),
        r is Ok ==> names_of(r->Ok_0@, items@),
        r is Err ==> exists|i: int| first_bad(items@, i) && r->Err_0 == item_error(items@[i], i),
{
    let mut names: Vec<String> = Vec::new();
    let mut i: usize = 0;
    while i < items.len()
        invariant
            i <= items@.len(),
            forall|j: int| 0 <= j < i ==> item_ok(#[trigger] items@[j]),
            names_of(names@, items@.subrange(0, i as int)),
        decreases items@.len() - i,
    {
        match &items[i] {
            ImplItem::Method { name, is_async } => {
                if *is_async {
                    assert(first_bad(items@, i as int));
                    return Err(GenError::AsyncMethod { index: i });
                }
                names.push(name.clone());
            },
            ImplItem::Constructor { .. } => {
                assert(first_bad(items@, i as int));
                return Err(GenError::Constructor { index: i });
            },
        }
        i = i + 1;
        assert(names_of(names@, items@.subrange(0, i as int)));
    }
    assert(items@.subrange(0, i as int) =~= items@);
    Ok(names)
}

/// The converter of an interface that foreign callers may implement.
pub fn ffi_converter(mod_path: &str, trait_name: &str, udl_mode: bool) -> (r: FfiConverter)
    requires
        mod_path.spec_bytes().len() < 256,
        trait_name.spec_bytes().len() < 256,
    ensures
        r.lift == LiftKind::ForeignCallback,
        r.local_tag == udl_mode,
        r.type_meta@ == interface_type_meta(mod_path.spec_bytes(), trait_name.spec_bytes()),
{
    FfiConverter {
        lift: LiftKind::ForeignCallback,
        local_tag: udl_mode,
        type_meta: interface_meta_buffer(mod_path, trait_name),
    }
}

/// The converter of an interface implemented in native code only; its
/// descriptor names the crate being compiled.
pub fn ffi_converter_trait_impl(crate_name: &str, trait_name: &str, udl_mode: bool) -> (r:
    FfiConverter)
    requires
        crate_name.spec_bytes().len() < 256,
        trait_name.spec_bytes().len() < 256,
    ensures
        r.lift == LiftKind::SharedCell,
        r.local_tag == udl_mode,
        r.type_meta@ == interface_type_meta(crate_name.spec_bytes(), trait_name.spec_bytes()),
{
    FfiConverter {
        lift: LiftKind::SharedCell,
        local_tag: udl_mode,
        type_meta: interface_meta_buffer(crate_name, trait_name),
    }
}

/// A string fits a type descriptor.
pub open spec fn fits(s: &str) -> bool {
    s.spec_bytes().len() < 256
}

/// `s` is what is generated for interface `trait_name`, declared in
/// `mod_path`, with method items `items`. Both modes have the clone and free
/// entry points. The native-only mode omits the interface descriptor and the
/// forwarding implementation, and its converter's descriptor names
/// `crate_name`.
pub open spec fn planned(
    s: TraitScaffolding,
    mod_path: &str,
    crate_name: &str,
    rust_only: bool,
    trait_name: &str,
    items: Seq<ImplItem>,
    udl_mode: bool,
    docstring: String,
) -> bool {
    &&& s.interface_docstring == if udl_mode || rust_only {
        None
    } else {
        Some(docstring)
    }
    &&& s.clone_symbol is Some
    &&& s.clone_symbol->0@ == clone_symbol(mod_path@, trait_name@)
    &&& s.free_symbol@ == free_symbol(mod_path@, trait_name@)
    &&& s.callback_impl == !rust_only
    &&& names_of(s.methods@, items)
    &&& if rust_only {
        &&& s.converter.lift == LiftKind::SharedCell
        &&& !s.converter.local_tag
        &&& s.converter.type_meta@ == interface_type_meta(
            crate_name.spec_bytes(),
            trait_name.spec_bytes(),
        )
    } else {
        &&& s.converter.lift == LiftKind::ForeignCallback
        &&& s.converter.local_tag == udl_mode
        &&& s.converter.type_meta@ == interface_type_meta(
            mod_path.spec_bytes(),
            trait_name.spec_bytes(),
        )
    }
}

/// What generating an interface in the mode given by `rust_only` gives: an
/// async runtime is refused first, then the first item that is an async
/// method or a constructor, then a module path or name too long for a
/// descriptor; else the plan.
pub open spec fn mode_result(
    r: Result<TraitScaffolding, GenError>,
    mod_path: &str,
    crate_name: &str,
    args: ExportAttributeArguments,
    rust_only: bool,
    trait_name: &str,
    items: Seq<ImplItem>,
    udl_mode: bool,
    docstring: String,
) -> bool {
    if args.async_runtime is Some {
        r == Err::<TraitScaffolding, GenError>(GenError::AsyncRuntime)
    } else if !all_ok(items) {
        r is Err && exists|i: int| first_bad(items, i) && r->Err_0 == item_error(items[i], i)
    } else if !(fits(mod_path) && fits(trait_name) && (rust_only ==> fits(crate_name))) {
        r == Err::<TraitScaffolding, GenError>(GenError::NameTooLong)
    } else {
        r is Ok && planned(
            r->Ok_0,
            mod_path,
            crate_name,
            rust_only,
            trait_name,
            items,
            udl_mode,
            docstring,
        )
    }
}

/// What generating an interface gives, in the mode that `args` asks for.
pub open spec fn gen_result(
    r: Result<TraitScaffolding, GenError>,
    mod_path: &str,
    crate_name: &str,
    args: ExportAttributeArguments,
    trait_name: &str,
    items: Seq<ImplItem>,
    udl_mode: bool,
    docstring: String,
) -> bool {
    mode_result(
        r,
        mod_path,
        crate_name,
        args,
        args.rust_impl_only,
        trait_name,
        items,
        udl_mode,
        docstring,
    )
}

/// Plans the boundary of interface `trait_name`, declared in `mod_path`;
/// `crate_name` is the crate being compiled, used by the native-only mode.
pub fn gen_trait_scaffolding(
    mod_path: &str,
    crate_name: &str,
    args: ExportAttributeArguments,
    trait_name: &str,
    items: Vec<ImplItem>,
    udl_mode: bool,
    docstring: String,
) -> (r: Result<TraitScaffolding, GenError>)
    ensures
        gen_result(r, mod_path, crate_name, args, trait_name, items@, udl_mode, docstring),
{
    if args.async_runtime.is_some() {
        return Err(GenError::AsyncRuntime);
    }
    if args.rust_impl_only {
        return rust_only_trait(args, trait_name, mod_path, crate_name, items, udl_mode, docstring);
    }
    let methods = match method_names(&items) {
        Ok(m) => m,
        Err(e) => {
            return Err(e);
        },
    };
    if mod_path.as_bytes().len() >= 256 || trait_name.as_bytes().len() >= 256 {
        return Err(GenError::NameTooLong);
    }
    let clone_fn = clone_fn_symbol_name(mod_path, trait_name);
    let free_fn = free_fn_symbol_name(mod_path, trait_name);
    let interface_docstring = if udl_mode {
        None
    } else {
        Some(docstring)
    };
    Ok(
        TraitScaffolding {
            interface_docstring,
            clone_symbol: Some(clone_fn),
            free_symbol: free_fn,
            callback_impl: true,
            methods,
            converter: ffi_converter(mod_path, trait_name, udl_mode),
        },
    )
}

/// Plans the boundary of an interface implemented in native code only: the
/// clone and free entry points and a converter, without the interface
/// descriptor or a forwarding implementation.
pub fn rust_only_trait(
    args: ExportAttributeArguments,
    trait_name: &str,
    mod_path: &str,
    crate_name: &str,
    items: Vec<ImplItem>,
    udl_mode: bool,
    docstring: String,
) -> (r: Result<TraitScaffolding, GenError>)
    ensures
        mode_result(r, mod_path, crate_name, args, true, trait_name, items@, udl_mode, docstring),
{
    if args.async_runtime.is_some() {
        return Err(GenError::AsyncRuntime);
    }
    let too_long = mod_path.as_bytes().len() >= 256 || trait_name.as_bytes().len() >= 256
        || crate_name.as_bytes().len() >= 256;
    let methods = match method_names(&items) {
        Ok(m) => m,
        Err(e) => {
            return Err(e);
        },
    };
    if too_long {
        return Err(GenError::NameTooLong);
    }
    let clone_fn = clone_fn_symbol_name(mod_path, trait_name);
    let free_fn = free_fn_symbol_name(mod_path, trait_name);
    Ok(
        TraitScaffolding {
            interface_docstring: None,
            clone_symbol: Some(clone_fn),
            free_symbol: free_fn,
            callback_impl: false,
            methods,
            converter: ffi_converter_trait_impl(crate_name, trait_name, false),
        },
    )
}

/// In either mode, an interface with an async method or a constructor among
/// its items is refused, whatever else it holds.
pub proof fn lemma_async_and_constructors_refused(
    r: Result<TraitScaffolding, GenError>,
    mod_path: &str,
    crate_name: &str,
    args: ExportAttributeArguments,
    rust_only: bool,
    trait_name: &str,
    items: Seq<ImplItem>,
    udl_mode: bool,
    docstring: String,
    i: int,
)
    requires
        mode_result(r, mod_path, crate_name, args, rust_only, trait_name, items, udl_mode, docstring),
        0 <= i < items.len(),
        items[i] is Constructor || (items[i] matches ImplItem::Method { is_async, .. } && is_async),
    ensures
        r is Err,
{
    assert(!item_ok(items[i]));
}

} // verus!
