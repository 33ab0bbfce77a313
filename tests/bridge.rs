use byref_bridge::button::{BackButton, ByrefButton, Other};
use byref_bridge::callback::{
    call_name, decode_name_return, try_read_other, write_other, CallbackError, ForeignButton,
    NameDispatch, NAME_METHOD_INDEX,
};
use byref_bridge::handles::{FreeOutcome, HandleError, HandleTable, Target};
use byref_bridge::wire::{try_read_handle, try_read_u32, write_handle, write_u32, WireError};

#[test]
fn back_button_names_by_record() {
    let b = BackButton::new();
    assert_eq!(b.name(&Other { num: 42 }), "back42");
    assert_eq!(b.name(&Other { num: 0 }), "back0");
    assert_eq!(b.name(&Other { num: u32::MAX }), "back4294967295");
}

#[test]
fn handle_write_then_read() {
    let mut buf = vec![9u8];
    write_handle(0x0102_0304_0506_0708, &mut buf);
    assert_eq!(buf, vec![9, 1, 2, 3, 4, 5, 6, 7, 8]);
    assert_eq!(try_read_handle(&buf, 1), Ok((0x0102_0304_0506_0708, 9)));
}

#[test]
fn handle_read_from_short_buffer_fails() {
    let buf = vec![1u8, 2, 3, 4, 5, 6, 7];
    assert_eq!(
        try_read_handle(&buf, 0),
        Err(WireError::BufferUnderrun { needed: 8, remaining: 7 })
    );
    assert_eq!(
        try_read_handle(&buf, 7),
        Err(WireError::BufferUnderrun { needed: 8, remaining: 0 })
    );
}

#[test]
fn u32_field_round_trip() {
    let mut buf = Vec::new();
    write_u32(0xA0B0_C0D0, &mut buf);
    assert_eq!(buf, vec![0xA0, 0xB0, 0xC0, 0xD0]);
    assert_eq!(try_read_u32(&buf, 0), Ok((0xA0B0_C0D0, 4)));
    assert_eq!(
        try_read_u32(&buf, 1),
        Err(WireError::BufferUnderrun { needed: 4, remaining: 3 })
    );
}

#[test]
fn record_round_trip() {
    let mut buf = Vec::new();
    write_other(&Other { num: 42 }, &mut buf);
    assert_eq!(buf, vec![0, 0, 0, 42]);
    let (o, next) = try_read_other(&buf, 0).unwrap();
    assert_eq!(o.num, 42);
    assert_eq!(next, 4);
}

#[test]
fn lowered_native_answers_like_direct_call() {
    let mut t = HandleTable::new();
    let h = t.lower(Target::Native { instance: 1 });
    assert_eq!(t.lift(h), Ok(Target::Native { instance: 1 }));
    let direct = BackButton::new().name(&Other { num: 42 });
    assert_eq!(call_name(&t, h, &[0, 0, 0, 42]), NameDispatch::Returned(direct));
}

#[test]
fn clone_then_free_keeps_implementation() {
    let mut t = HandleTable::new();
    let h = t.lower(Target::Native { instance: 3 });
    let h2 = t.clone_handle(h).unwrap();
    assert_ne!(h, h2);
    assert_eq!(t.free_handle(h), Ok(FreeOutcome::Kept));
    assert_eq!(t.lift(h), Err(HandleError::InvalidHandle { handle: h }));
    assert_eq!(
        call_name(&t, h2, &[0, 0, 0, 7]),
        NameDispatch::Returned("back7".to_string())
    );
    assert_eq!(
        t.free_handle(h2),
        Ok(FreeOutcome::Released(Target::Native { instance: 3 }))
    );
    assert_eq!(t.free_handle(h2), Err(HandleError::InvalidHandle { handle: h2 }));
}

#[test]
fn invalid_handles_are_refused() {
    let mut t = HandleTable::new();
    assert_eq!(t.lift(0), Err(HandleError::InvalidHandle { handle: 0 }));
    assert_eq!(t.clone_handle(5), Err(HandleError::InvalidHandle { handle: 5 }));
    assert_eq!(t.free_handle(1), Err(HandleError::InvalidHandle { handle: 1 }));
    assert_eq!(
        call_name(&t, 2, &[0, 0, 0, 1]),
        NameDispatch::InvalidHandle { handle: 2 }
    );
}

#[test]
fn short_arguments_are_refused() {
    let mut t = HandleTable::new();
    let h = t.lower(Target::Native { instance: 1 });
    assert_eq!(
        call_name(&t, h, &[0, 0]),
        NameDispatch::InvalidArgs(WireError::BufferUnderrun { needed: 4, remaining: 2 })
    );
}

#[test]
fn foreign_release_comes_once() {
    let mut t = HandleTable::new();
    let h = t.lower(Target::Foreign { id: 7 });
    let h2 = t.clone_handle(h).unwrap();
    let h3 = t.clone_handle(h2).unwrap();
    let mut releases = Vec::new();
    for x in [h2, h, h3, h, h2] {
        if let Ok(FreeOutcome::Released(target)) = t.free_handle(x) {
            releases.push(target);
        }
    }
    assert_eq!(releases, vec![Target::Foreign { id: 7 }]);
}

#[test]
fn foreign_call_forwards_identifier_and_index() {
    let call = ForeignButton::new(7).name_call(&Other { num: 42 });
    assert_eq!(call.handle, 7);
    assert_eq!(call.method_index, 0);
    assert_eq!(call.method_index, NAME_METHOD_INDEX);
    assert_eq!(call.args, vec![0, 0, 0, 42]);
    // A foreign stub that answers "back" followed by the record's number.
    let (o, _) = try_read_other(&call.args, 0).unwrap();
    let returned = format!("back{}", o.num).into_bytes();
    assert_eq!(decode_name_return(0, returned), Ok("back42".to_string()));
}

#[test]
fn foreign_handle_forwards_through_dispatch() {
    let mut t = HandleTable::new();
    let h = t.lower(Target::Foreign { id: 7 });
    match call_name(&t, h, &[0, 0, 0, 42]) {
        NameDispatch::Forward(call) => {
            assert_eq!(call.handle, 7);
            assert_eq!(call.method_index, 0);
            assert_eq!(call.args, vec![0, 0, 0, 42]);
        }
        other => panic!("expected a forwarded call, got {:?}", other),
    }
}

#[test]
fn foreign_failures_decode() {
    assert_eq!(decode_name_return(1, vec![1, 2]), Err(CallbackError::UndeclaredError));
    assert_eq!(
        decode_name_return(2, b"boom".to_vec()),
        Err(CallbackError::Unexpected { message: Some("boom".to_string()) })
    );
    assert_eq!(
        decode_name_return(2, vec![0xff]),
        Err(CallbackError::Unexpected { message: None })
    );
    assert_eq!(decode_name_return(0, vec![0xc3]), Err(CallbackError::InvalidReturn));
    assert_eq!(
        decode_name_return(-1, vec![]),
        Err(CallbackError::UnknownStatus { code: -1 })
    );
    assert_eq!(decode_name_return(0, "héllo".as_bytes().to_vec()), Ok("héllo".to_string()));
}

#[test]
fn repeated_clone_call_free_leaves_count_unchanged() {
    let mut t = HandleTable::new();
    let h = t.lower(Target::Native { instance: 9 });
    for round in 0..8u32 {
        let mut clones = Vec::new();
        for _ in 0..16 {
            clones.push(t.clone_handle(h).unwrap());
        }
        for c in &clones {
            assert_eq!(
                call_name(&t, *c, &round.to_be_bytes()),
                NameDispatch::Returned(format!("back{}", round))
            );
        }
        for c in clones {
            assert_eq!(t.free_handle(c), Ok(FreeOutcome::Kept));
        }
    }
    assert_eq!(
        t.free_handle(h),
        Ok(FreeOutcome::Released(Target::Native { instance: 9 }))
    );
}
