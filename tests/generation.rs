use byref_bridge::scaffold::{
    ffi_converter, ffi_converter_trait_impl, gen_trait_scaffolding, method_names,
    rust_only_trait, ExportAttributeArguments, GenError, ImplItem, LiftKind,
};

fn method(name: &str, is_async: bool) -> ImplItem {
    ImplItem::Method { name: name.to_string(), is_async }
}

fn args(rust_impl_only: bool) -> ExportAttributeArguments {
    ExportAttributeArguments { async_runtime: None, rust_impl_only }
}

fn meta(mod_path: &str, name: &str) -> Vec<u8> {
    let mut v = vec![16u8, mod_path.len() as u8];
    v.extend_from_slice(mod_path.as_bytes());
    v.push(name.len() as u8);
    v.extend_from_slice(name.as_bytes());
    v.push(1);
    v
}

#[test]
fn full_mode_plan() {
    let s = gen_trait_scaffolding(
        "byref_trait",
        "byref_trait",
        args(false),
        "ByrefButton",
        vec![method("name", false)],
        false,
        "A button.".to_string(),
    )
    .unwrap();
    assert_eq!(s.interface_docstring, Some("A button.".to_string()));
    assert_eq!(s.clone_symbol, Some("uniffi_byref_trait_fn_clone_byrefbutton".to_string()));
    assert_eq!(s.free_symbol, "uniffi_byref_trait_fn_free_byrefbutton");
    assert!(s.callback_impl);
    assert_eq!(s.methods, vec!["name".to_string()]);
    assert_eq!(s.converter.lift, LiftKind::ForeignCallback);
    assert!(!s.converter.local_tag);
    assert_eq!(s.converter.type_meta, meta("byref_trait", "ByrefButton"));
}

#[test]
fn udl_mode_omits_interface_descriptor() {
    let s = gen_trait_scaffolding(
        "m",
        "c",
        args(false),
        "T",
        vec![method("a", false), method("b", false)],
        true,
        String::new(),
    )
    .unwrap();
    assert_eq!(s.interface_docstring, None);
    assert!(s.converter.local_tag);
    assert_eq!(s.methods, vec!["a".to_string(), "b".to_string()]);
}

#[test]
fn rust_only_mode_plan() {
    let s = gen_trait_scaffolding(
        "my_mod",
        "my_crate",
        args(true),
        "Shape",
        vec![method("area", false)],
        false,
        "A shape.".to_string(),
    )
    .unwrap();
    assert_eq!(s.interface_docstring, None);
    assert_eq!(s.clone_symbol, Some("uniffi_my_mod_fn_clone_shape".to_string()));
    assert_eq!(s.free_symbol, "uniffi_my_mod_fn_free_shape");
    assert!(!s.callback_impl);
    assert_eq!(s.converter.lift, LiftKind::SharedCell);
    assert_eq!(s.converter.type_meta, meta("my_crate", "Shape"));
    let direct = rust_only_trait(
        args(true),
        "Shape",
        "my_mod",
        "my_crate",
        vec![method("area", false)],
        false,
        "A shape.".to_string(),
    );
    assert_eq!(direct, Ok(s));
}

#[test]
fn async_method_is_refused() {
    let r = gen_trait_scaffolding(
        "m",
        "c",
        args(false),
        "T",
        vec![method("a", false), method("b", true)],
        false,
        String::new(),
    );
    assert_eq!(r, Err(GenError::AsyncMethod { index: 1 }));
    let r = gen_trait_scaffolding("m", "c", args(true), "T", vec![method("b", true)], false, String::new());
    assert_eq!(r, Err(GenError::AsyncMethod { index: 0 }));
}

#[test]
fn constructor_is_refused() {
    let items = vec![ImplItem::Constructor { name: "new".to_string() }, method("b", true)];
    let r = gen_trait_scaffolding("m", "c", args(false), "T", items, false, String::new());
    assert_eq!(r, Err(GenError::Constructor { index: 0 }));
}

#[test]
fn async_runtime_is_refused() {
    let a = ExportAttributeArguments { async_runtime: Some("tokio".to_string()), rust_impl_only: false };
    let r = gen_trait_scaffolding("m", "c", a, "T", vec![], false, String::new());
    assert_eq!(r, Err(GenError::AsyncRuntime));
    let a = ExportAttributeArguments { async_runtime: Some("tokio".to_string()), rust_impl_only: true };
    let r = gen_trait_scaffolding("m", "c", a, "T", vec![], false, String::new());
    assert_eq!(r, Err(GenError::AsyncRuntime));
}

#[test]
fn overlong_name_is_refused() {
    let long = "x".repeat(256);
    let r = gen_trait_scaffolding(&long, "c", args(false), "T", vec![], false, String::new());
    assert_eq!(r, Err(GenError::NameTooLong));
    let r = gen_trait_scaffolding("m", &long, args(true), "T", vec![], false, String::new());
    assert_eq!(r, Err(GenError::NameTooLong));
    let ok = "x".repeat(255);
    assert!(gen_trait_scaffolding("m", &long, args(false), &ok, vec![], false, String::new()).is_ok());
}

#[test]
fn method_names_in_order() {
    let items = vec![method("z", false), method("a", false)];
    assert_eq!(method_names(&items), Ok(vec!["z".to_string(), "a".to_string()]));
    assert_eq!(method_names(&vec![]), Ok(vec![]));
}

#[test]
fn converters_describe_the_interface() {
    let c = ffi_converter("mod", "Iface", true);
    assert_eq!(c.lift, LiftKind::ForeignCallback);
    assert!(c.local_tag);
    assert_eq!(c.type_meta, vec![16, 3, b'm', b'o', b'd', 5, b'I', b'f', b'a', b'c', b'e', 1]);
    let c = ffi_converter_trait_impl("cr", "I", false);
    assert_eq!(c.lift, LiftKind::SharedCell);
    assert_eq!(c.type_meta, vec![16, 2, b'c', b'r', 1, b'I', 1]);
}

#[test]
fn reduced_mode_refuses_async_methods_directly() {
    let r = rust_only_trait(
        args(false),
        "T",
        "m",
        "c",
        vec![method("a", false), method("b", true)],
        true,
        String::new(),
    );
    assert_eq!(r, Err(GenError::AsyncMethod { index: 1 }));
    let s = rust_only_trait(args(false), "T", "m", "c", vec![], true, String::new()).unwrap();
    assert_eq!(s.clone_symbol, Some("uniffi_m_fn_clone_t".to_string()));
    assert_eq!(s.free_symbol, "uniffi_m_fn_free_t");
    assert!(!s.converter.local_tag);
}
