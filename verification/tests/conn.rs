use nix_ffi::conn::{Nix, Phase, Shutdown, TempRootError, ADD_TEMPROOT, STATUS_OK};
use nix_ffi::platform::ByteOrder;

fn idle() -> Nix {
    Nix::new(&[], ByteOrder::Little).unwrap()
}

fn idle_in(order: ByteOrder) -> Nix {
    Nix::new(&[], order).unwrap()
}

fn expected_request(name: &[u8], length: Vec<u8>) -> Vec<u8> {
    let mut request = vec![0u8];
    request.extend_from_slice(&length);
    request.extend_from_slice(name);
    request
}

#[test]
fn request_is_opcode_length_name() {
    let mut nix = idle();
    let name = b"abc123-hello".as_slice();
    let request = nix.add_temproot(name).unwrap();
    assert_eq!(request, expected_request(name, name.len().to_le_bytes().to_vec()));
    assert_eq!(request[0], ADD_TEMPROOT);
    assert_eq!(request.len(), 1 + std::mem::size_of::<usize>() + name.len());
    assert_eq!(nix.current_phase(), Phase::Awaiting);
}

#[test]
fn request_length_is_in_the_order_asked_for() {
    let mut nix = idle_in(ByteOrder::Big);
    assert_eq!(nix.byte_order(), ByteOrder::Big);
    let name = [7u8; 300];
    let request = nix.add_temproot(&name).unwrap();
    assert_eq!(request, expected_request(&name, 300usize.to_be_bytes().to_vec()));
}

#[test]
fn request_in_native_order_is_what_std_writes() {
    let mut nix = idle_in(ByteOrder::native());
    let name = b"x".as_slice();
    let request = nix.add_temproot(name).unwrap();
    assert_eq!(request, expected_request(name, 1usize.to_ne_bytes().to_vec()));
}

#[test]
fn empty_name_is_registered() {
    let mut nix = idle();
    let request = nix.add_temproot(&[]).unwrap();
    assert_eq!(request, expected_request(&[], vec![0u8; std::mem::size_of::<usize>()]));
    assert_eq!(nix.response(STATUS_OK), Ok(()));
    assert_eq!(nix.current_phase(), Phase::Idle);
}

#[test]
fn name_is_sent_as_raw_bytes() {
    let mut nix = idle();
    let name = [0u8, 255, 10, 0, 128];
    let request = nix.add_temproot(&name).unwrap();
    assert_eq!(&request[1 + std::mem::size_of::<usize>()..], &name);
}

#[test]
fn zero_status_ends_the_registration() {
    let mut nix = idle();
    nix.add_temproot(b"root").unwrap();
    assert_eq!(nix.response(0), Ok(()));
    assert_eq!(nix.current_phase(), Phase::Idle);
}

#[test]
fn other_status_is_fatal_and_breaks_the_connection() {
    for status in [1u8, 2, 127, 255] {
        let mut nix = idle();
        nix.add_temproot(b"root").unwrap();
        assert_eq!(nix.response(status), Err(TempRootError::BadResponse(status)));
        assert_eq!(nix.current_phase(), Phase::Broken);
        assert_eq!(nix.add_temproot(b"root"), Err(TempRootError::OutOfTurn));
        assert_eq!(nix.response(0), Err(TempRootError::OutOfTurn));
        assert_eq!(nix.current_phase(), Phase::Broken);
    }
}

#[test]
fn same_name_is_registered_twice() {
    let mut nix = idle();
    let first = nix.add_temproot(b"same-root").unwrap();
    assert_eq!(nix.response(STATUS_OK), Ok(()));
    let second = nix.add_temproot(b"same-root").unwrap();
    assert_eq!(nix.response(STATUS_OK), Ok(()));
    assert_eq!(first, second);
    assert_eq!(nix.current_phase(), Phase::Idle);
}

#[test]
fn same_name_is_registered_on_two_connections() {
    let mut a = idle_in(ByteOrder::Big);
    let mut b = idle_in(ByteOrder::Big);
    let first = a.add_temproot(b"shared").unwrap();
    let second = b.add_temproot(b"shared").unwrap();
    assert_eq!(first, second);
    assert_eq!(a.response(STATUS_OK), Ok(()));
    assert_eq!(a.wait_for_exit(), Shutdown::CloseWrite);
    assert_eq!(b.current_phase(), Phase::Awaiting);
    assert_eq!(b.response(STATUS_OK), Ok(()));
}

#[test]
fn one_request_at_a_time() {
    let mut nix = idle();
    nix.add_temproot(b"a").unwrap();
    assert_eq!(nix.add_temproot(b"b"), Err(TempRootError::OutOfTurn));
    assert_eq!(nix.current_phase(), Phase::Awaiting);
    assert_eq!(nix.response(STATUS_OK), Ok(()));
}

#[test]
fn response_without_request_is_out_of_turn() {
    let mut nix = idle();
    assert_eq!(nix.response(0), Err(TempRootError::OutOfTurn));
    assert_eq!(nix.current_phase(), Phase::Idle);
}

#[test]
fn shutdown_closes_the_write_side_then_drains() {
    let first = idle().wait_for_exit();
    assert_eq!(first, Shutdown::CloseWrite);
    let second = first.advance(None);
    assert_eq!(second, Shutdown::Drain);
    let third = second.advance(None);
    assert_eq!(third, Shutdown::Done(Ok(())));
    assert_eq!(third.advance(None), Shutdown::Done(Ok(())));
    assert_eq!(third.advance(Some(5)), Shutdown::Done(Ok(())));
}

#[test]
fn shutdown_ends_with_the_first_failure() {
    assert_eq!(Shutdown::CloseWrite.advance(Some(107)), Shutdown::Done(Err(107)));
    assert_eq!(Shutdown::Drain.advance(Some(104)), Shutdown::Done(Err(104)));
    assert_eq!(Shutdown::Done(Err(104)).advance(None), Shutdown::Done(Err(104)));
}

#[test]
fn shutdown_takes_a_connection_in_any_phase() {
    let mut awaiting = idle();
    awaiting.add_temproot(b"a").unwrap();
    assert_eq!(awaiting.wait_for_exit(), Shutdown::CloseWrite);
    let mut broken = idle();
    broken.add_temproot(b"a").unwrap();
    assert!(broken.response(9).is_err());
    assert_eq!(broken.wait_for_exit(), Shutdown::CloseWrite);
}

#[test]
fn protocol_failures_have_names() {
    assert_eq!(TempRootError::BadResponse(1).message(), "impossible byte from ffi-helper");
    assert_eq!(TempRootError::OutOfTurn.message(), "request or response out of turn");
}
