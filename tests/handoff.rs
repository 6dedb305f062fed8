use credhandoff::client::{ClientAction, ClientError, ClientPhase, ClientSession};
use credhandoff::credential::{
    CredentialError, CredentialState, FieldInteractiveState, FieldState, SampleCredential,
};
use credhandoff::lifetime::{
    check_class_object_request, check_create_instance, dll_add_ref, dll_release, lock_server,
    ClassError, ModuleLifetime, CLSID_SAMPLE_PROVIDER,
};
use credhandoff::listener::{CPipeListener, ListenerAction, ListenerEvent, ListenerExit, ListenerPhase};
use credhandoff::store::SharedCredentials;
use credhandoff::wide::{decode_message, encode_message, to_wide_vec};

fn units(s: &str) -> Vec<u16> {
    s.encode_utf16().collect()
}

fn connected_listener() -> CPipeListener {
    let mut store = SharedCredentials::new("");
    let mut l = CPipeListener::start();
    assert_eq!(l.step(ListenerEvent::Begin, &mut store), ListenerAction::CreateChannel);
    assert_eq!(l.step(ListenerEvent::ChannelCreated(true), &mut store), ListenerAction::AwaitClient);
    assert_eq!(l.step(ListenerEvent::ClientConnected(true), &mut store), ListenerAction::ReadMessage);
    l
}

fn written(a: ClientAction) -> Vec<u8> {
    match a {
        ClientAction::Write(b) => b,
        _ => panic!("expected a write"),
    }
}

#[test]
fn wide_vec_has_terminator_and_surrogates() {
    assert_eq!(to_wide_vec("ab"), vec![97u16, 98, 0]);
    assert_eq!(to_wide_vec(""), vec![0u16]);
    assert_eq!(to_wide_vec("\u{1F600}"), vec![0xD83Du16, 0xDE00, 0]);
    assert_eq!(to_wide_vec("自"), vec![0x81EAu16, 0]);
}

#[test]
fn message_is_little_endian_with_terminator() {
    assert_eq!(encode_message("ab"), vec![97u8, 0, 98, 0, 0, 0]);
    assert_eq!(encode_message("\u{100}"), vec![0u8, 1, 0, 0]);
}

#[test]
fn decode_trims_trailing_nul_padding_only() {
    assert_eq!(decode_message(&vec![97, 0, 98, 0, 0, 0, 0, 0]), vec![97u16, 98]);
    assert_eq!(decode_message(&vec![0, 0, 97, 0, 0, 0]), vec![0u16, 97]);
    assert_eq!(decode_message(&vec![0, 0, 0, 0]), Vec::<u16>::new());
    assert_eq!(decode_message(&vec![]), Vec::<u16>::new());
}

#[test]
fn decode_ignores_odd_last_byte() {
    assert_eq!(decode_message(&vec![97, 0, 98]), vec![97u16]);
}

#[test]
fn decode_replaces_unpaired_surrogates() {
    // 'A', lone high surrogate, 'B'
    assert_eq!(decode_message(&vec![0x41, 0, 0x00, 0xD8, 0x42, 0]), vec![0x41u16, 0xFFFD, 0x42]);
    // lone low surrogate at the end
    assert_eq!(decode_message(&vec![0x00, 0xDC]), vec![0xFFFDu16]);
    // a proper pair is kept
    assert_eq!(decode_message(&vec![0x3D, 0xD8, 0x00, 0xDE]), vec![0xD83Du16, 0xDE00]);
}

#[test]
fn client_message_round_trips_through_server_decoding() {
    for s in ["alice", "Secret123", "", "Zoë \u{1F600} 自动"] {
        assert_eq!(decode_message(&encode_message(s)), units(s));
    }
}

#[test]
fn principal_for_empty_and_local_domain_is_user() {
    let mut store = SharedCredentials::new("");
    store.set_username(units("alice"));
    assert_eq!(store.principal_units(), units("alice"));
    let mut local = SharedCredentials::new(".");
    local.set_username(units("alice"));
    assert_eq!(local.principal_units(), units("alice"));
}

#[test]
fn principal_with_domain_uses_backslash() {
    let mut store = SharedCredentials::new("CORP");
    store.set_username(units("alice"));
    assert_eq!(store.principal_units(), units("CORP\\alice"));
    let mut dots = SharedCredentials::new("..");
    dots.set_username(units("bob"));
    assert_eq!(dots.principal_units(), units("..\\bob"));
}

#[test]
fn store_starts_empty_and_not_ready() {
    let store = SharedCredentials::new("CORP");
    assert!(store.username.is_empty());
    assert!(store.password.is_empty());
    assert_eq!(store.domain, units("CORP"));
    assert!(!store.is_ready);
}

#[test]
fn end_to_end_delivery_and_serialization() {
    let mut lifetime = ModuleLifetime::new();
    let mut store = SharedCredentials::new("");
    let mut listener = CPipeListener::start();
    let (mut client, first) = ClientSession::new("alice", "Secret123");
    assert!(matches!(first, ClientAction::WaitForChannel(5000)));

    assert_eq!(listener.step(ListenerEvent::Begin, &mut store), ListenerAction::CreateChannel);
    assert_eq!(listener.step(ListenerEvent::ChannelCreated(true), &mut store), ListenerAction::AwaitClient);

    assert!(matches!(client.step(true), ClientAction::OpenChannel));
    let user_msg = written(client.step(true));
    assert_eq!(listener.step(ListenerEvent::ClientConnected(true), &mut store), ListenerAction::ReadMessage);
    let pass_msg = written(client.step(true));
    assert!(matches!(client.step(true), ClientAction::CloseChannel));
    assert!(matches!(client.step(true), ClientAction::Report(Ok(()))));
    assert_eq!(client.phase, ClientPhase::Done);

    assert_eq!(listener.step(ListenerEvent::MessageRead(Some(user_msg)), &mut store), ListenerAction::ReadMessage);
    assert_eq!(
        listener.step(ListenerEvent::MessageRead(Some(pass_msg)), &mut store),
        ListenerAction::NotifyHostAndClose
    );
    assert_eq!(store.username, units("alice"));
    assert_eq!(store.password, units("Secret123"));
    assert!(store.is_ready);
    assert!(listener.is_unlocked);
    assert!(!listener.running);
    assert_eq!(listener.exit, Some(ListenerExit::Served));
    // nothing further is notified
    assert_eq!(listener.step(ListenerEvent::MessageRead(None), &mut store), ListenerAction::Nothing);

    let mut cred: SampleCredential<u32> = SampleCredential::new(42, &mut lifetime);
    cred.advise(1);
    let req = cred.get_serialization(&store).unwrap();
    assert_eq!(req.principal, to_wide_vec("alice"));
    assert_eq!(req.password, to_wide_vec("Secret123"));
    assert_eq!(cred.accept_pack_size(96), Ok(96));
    let token = cred.finish_serialization(Some(vec![7u8; 96])).unwrap();
    assert_eq!(token.length, 96);
    assert_eq!(token.buffer.len(), 96);
    assert_eq!(token.auth_package_id, 42);
    assert_eq!(token.provider_clsid, CLSID_SAMPLE_PROVIDER);
    assert_eq!(cred.state, CredentialState::Finished);
}

#[test]
fn client_without_channel_reports_unavailable() {
    let mut store = SharedCredentials::new("");
    let mut listener = CPipeListener::start();
    listener.step(ListenerEvent::Begin, &mut store);
    assert_eq!(listener.step(ListenerEvent::ChannelCreated(true), &mut store), ListenerAction::AwaitClient);
    let (mut client, _) = ClientSession::new("alice", "Secret123");
    assert!(matches!(client.step(false), ClientAction::Report(Err(ClientError::ChannelUnavailable))));
    assert_eq!(client.phase, ClientPhase::Done);
    assert!(matches!(client.step(true), ClientAction::Nothing));
    // the listener is still waiting for a connection
    assert_eq!(listener.phase, ListenerPhase::AwaitingClient);
    assert!(listener.running);
    assert!(!store.is_ready);
}

#[test]
fn client_disconnecting_after_username_leaves_record_incomplete() {
    let mut store = SharedCredentials::new("");
    let mut listener = connected_listener();
    let user_msg = encode_message("alice");
    assert_eq!(listener.step(ListenerEvent::MessageRead(Some(user_msg)), &mut store), ListenerAction::ReadMessage);
    assert_eq!(listener.step(ListenerEvent::MessageRead(None), &mut store), ListenerAction::CloseChannel);
    assert_eq!(listener.exit, Some(ListenerExit::TransferIncomplete));
    assert_eq!(store.username, units("alice"));
    assert!(store.password.is_empty());
    assert!(!store.is_ready);
    let mut lifetime = ModuleLifetime::new();
    let mut cred: SampleCredential<u32> = SampleCredential::new(1, &mut lifetime);
    for _ in 0..3 {
        assert!(matches!(cred.get_serialization(&store), Err(CredentialError::NotReady)));
    }
}

#[test]
fn serialization_before_ready_fails_not_ready() {
    let mut lifetime = ModuleLifetime::new();
    let store = SharedCredentials::new("");
    let mut cred: SampleCredential<u32> = SampleCredential::new(1, &mut lifetime);
    cred.set_selected();
    assert!(matches!(cred.get_serialization(&store), Err(CredentialError::NotReady)));
    assert_eq!(cred.state, CredentialState::Advised);
}

#[test]
fn serialization_succeeds_once_per_attempt() {
    let mut lifetime = ModuleLifetime::new();
    let mut store = SharedCredentials::new("");
    store.set_username(units("u"));
    store.set_password(units("p"));
    store.mark_ready();
    let mut cred: SampleCredential<u32> = SampleCredential::new(3, &mut lifetime);
    assert!(cred.get_serialization(&store).is_ok());
    assert_eq!(cred.accept_pack_size(10), Ok(10));
    assert!(cred.finish_serialization(Some(vec![0u8; 10])).is_ok());
    assert!(matches!(cred.get_serialization(&store), Err(CredentialError::AlreadySerialized)));
}

#[test]
fn zero_pack_size_fails() {
    let mut lifetime = ModuleLifetime::new();
    let mut store = SharedCredentials::new("");
    store.mark_ready();
    let mut cred: SampleCredential<u32> = SampleCredential::new(3, &mut lifetime);
    assert!(cred.get_serialization(&store).is_ok());
    assert_eq!(cred.accept_pack_size(0), Err(CredentialError::PackingFailure));
    assert_eq!(cred.state, CredentialState::Advised);
}

#[test]
fn failed_or_mismatched_fill_fails() {
    let mut lifetime = ModuleLifetime::new();
    let mut store = SharedCredentials::new("");
    store.mark_ready();
    let mut cred: SampleCredential<u32> = SampleCredential::new(3, &mut lifetime);
    assert!(cred.get_serialization(&store).is_ok());
    assert_eq!(cred.accept_pack_size(8), Ok(8));
    assert!(matches!(cred.finish_serialization(Some(vec![0u8; 7])), Err(CredentialError::PackingFailure)));
    assert!(cred.get_serialization(&store).is_ok());
    assert_eq!(cred.accept_pack_size(8), Ok(8));
    assert!(matches!(cred.finish_serialization(None), Err(CredentialError::PackingFailure)));
}

#[test]
fn serialization_steps_out_of_order_are_refused() {
    let mut lifetime = ModuleLifetime::new();
    let mut cred: SampleCredential<u32> = SampleCredential::new(3, &mut lifetime);
    assert_eq!(cred.accept_pack_size(8), Err(CredentialError::OutOfOrder));
    assert!(matches!(cred.finish_serialization(Some(vec![0u8; 8])), Err(CredentialError::OutOfOrder)));
    assert_eq!(cred.state, CredentialState::Created);
}

#[test]
fn unadvised_capability_is_not_notified() {
    let mut lifetime = ModuleLifetime::new();
    let mut cred: SampleCredential<u32> = SampleCredential::new(3, &mut lifetime);
    assert_eq!(cred.notification_target(), None);
    cred.advise(77);
    assert_eq!(cred.state, CredentialState::Advised);
    assert_eq!(cred.notification_target(), Some(&77));
    cred.unadvise();
    assert_eq!(cred.notification_target(), None);
}

#[test]
fn unknown_fields_are_invalid_and_change_nothing() {
    let mut lifetime = ModuleLifetime::new();
    let mut cred: SampleCredential<u32> = SampleCredential::new(3, &mut lifetime);
    cred.advise(5);
    for id in [2u32, 3, 100, u32::MAX] {
        assert_eq!(cred.get_field_state(id), Err(CredentialError::InvalidArgument));
        assert_eq!(cred.get_string_value(id), Err(CredentialError::InvalidArgument));
        assert_eq!(cred.get_bitmap_value(id), Err(CredentialError::InvalidArgument));
    }
    assert_eq!(cred.state, CredentialState::Advised);
    assert_eq!(cred.events, Some(5));
    assert_eq!(cred.auth_package_id, 3);
}

#[test]
fn known_fields_are_displayed_and_labelled() {
    let mut lifetime = ModuleLifetime::new();
    let cred: SampleCredential<u32> = SampleCredential::new(3, &mut lifetime);
    for id in [0u32, 1] {
        assert_eq!(
            cred.get_field_state(id),
            Ok((FieldState::DisplayInBoth, FieldInteractiveState::NotInteractive))
        );
        assert_eq!(cred.get_bitmap_value(id), Ok(()));
    }
    assert_eq!(cred.get_string_value(1), Ok(to_wide_vec("Manson Winlogon自动登录")));
    assert_eq!(cred.get_string_value(0), Ok(vec![0u16]));
}

#[test]
fn optional_affordances_are_not_implemented() {
    let mut lifetime = ModuleLifetime::new();
    let cred: SampleCredential<u32> = SampleCredential::new(3, &mut lifetime);
    let e = Err(CredentialError::NotImplemented);
    assert_eq!(cred.get_checkbox_value(0), e);
    assert_eq!(cred.get_submit_button_value(0), Err(CredentialError::NotImplemented));
    assert_eq!(cred.get_combo_box_value_count(0), e);
    assert_eq!(cred.get_combo_box_value_at(0, 0), Err(CredentialError::NotImplemented));
    assert_eq!(cred.set_string_value(0), e);
    assert_eq!(cred.set_checkbox_value(0, true), e);
    assert_eq!(cred.set_combo_box_selected_value(0, 1), e);
    assert_eq!(cred.command_link_clicked(0), e);
    assert_eq!(cred.report_result(0, 0), e);
}

#[test]
fn selection_toggles_succeed() {
    let mut lifetime = ModuleLifetime::new();
    let mut cred: SampleCredential<u32> = SampleCredential::new(3, &mut lifetime);
    assert!(cred.set_selected());
    assert_eq!(cred.state, CredentialState::Selected);
    cred.set_deselected();
    assert_eq!(cred.state, CredentialState::Deselected);
}

#[test]
fn lifetime_counts_objects_and_locks() {
    let mut lifetime = ModuleLifetime::new();
    assert!(lifetime.can_unload_now());
    let cred: SampleCredential<u32> = SampleCredential::new(3, &mut lifetime);
    assert_eq!(lifetime.count, 1);
    assert!(!lifetime.can_unload_now());
    lock_server(&mut lifetime, true);
    assert_eq!(lifetime.count, 2);
    lock_server(&mut lifetime, false);
    cred.destroy(&mut lifetime);
    assert!(lifetime.can_unload_now());
    dll_add_ref(&mut lifetime);
    dll_release(&mut lifetime);
    dll_release(&mut lifetime);
    assert_eq!(lifetime.count, -1);
    assert!(!lifetime.can_unload_now());
}

#[test]
fn class_object_requests_are_checked() {
    assert_eq!(check_class_object_request(None, true, true), Err(ClassError::InvalidArgument));
    assert_eq!(check_class_object_request(Some(CLSID_SAMPLE_PROVIDER), false, true), Err(ClassError::InvalidArgument));
    assert_eq!(check_class_object_request(Some(CLSID_SAMPLE_PROVIDER), true, false), Err(ClassError::InvalidArgument));
    assert_eq!(check_class_object_request(Some(1), true, true), Err(ClassError::ClassNotAvailable));
    assert_eq!(check_class_object_request(Some(0x8a7b9c6d_4e5f_89a0_8b7c_6d5e4f3e2d1c), true, true), Ok(()));
    assert_eq!(check_create_instance(true, true), Err(ClassError::NoAggregation));
    assert_eq!(check_create_instance(false, false), Err(ClassError::InvalidArgument));
    assert_eq!(check_create_instance(false, true), Ok(()));
}

#[test]
fn stop_before_begin_cancels() {
    let mut store = SharedCredentials::new("");
    let mut l = CPipeListener::start();
    l.request_stop();
    assert_eq!(l.step(ListenerEvent::Begin, &mut store), ListenerAction::Nothing);
    assert_eq!(l.exit, Some(ListenerExit::Cancelled));
}

#[test]
fn stop_before_reading_discards_connection() {
    let mut store = SharedCredentials::new("");
    let mut l = CPipeListener::start();
    l.step(ListenerEvent::Begin, &mut store);
    l.step(ListenerEvent::ChannelCreated(true), &mut store);
    l.request_stop();
    assert_eq!(l.step(ListenerEvent::ClientConnected(true), &mut store), ListenerAction::CloseChannel);
    assert_eq!(l.exit, Some(ListenerExit::Cancelled));
    assert_eq!(l.phase, ListenerPhase::Exited);
}

#[test]
fn channel_failures_end_the_listener() {
    let mut store = SharedCredentials::new("");
    let mut l = CPipeListener::start();
    l.step(ListenerEvent::Begin, &mut store);
    assert_eq!(l.step(ListenerEvent::ChannelCreated(false), &mut store), ListenerAction::Nothing);
    assert_eq!(l.exit, Some(ListenerExit::SetupFailure));
    assert!(!l.running);
    let mut l2 = CPipeListener::start();
    l2.step(ListenerEvent::Begin, &mut store);
    l2.step(ListenerEvent::ChannelCreated(true), &mut store);
    assert_eq!(l2.step(ListenerEvent::ClientConnected(false), &mut store), ListenerAction::CloseChannel);
    assert_eq!(l2.exit, Some(ListenerExit::SetupFailure));
}

#[test]
fn longest_message_drops_terminator() {
    assert_eq!(encode_message(&"x".repeat(255)).len(), 512);
    assert_eq!(encode_message(&"x".repeat(256)).len(), 512);
    assert_eq!(encode_message(&"x".repeat(257)).len(), 514);
    let long = encode_message(&"y".repeat(256));
    assert_eq!(&long[510..], &[b'y', 0]);
}

#[test]
fn longest_accepted_fields_and_first_refused() {
    let longest = "x".repeat(256);
    let pass = "p".repeat(256);
    let mut store = SharedCredentials::new("");
    let mut l = connected_listener();
    let msg = encode_message(&longest);
    assert_eq!(l.step(ListenerEvent::MessageRead(Some(msg)), &mut store), ListenerAction::ReadMessage);
    assert_eq!(
        l.step(ListenerEvent::MessageRead(Some(encode_message(&pass))), &mut store),
        ListenerAction::NotifyHostAndClose
    );
    assert_eq!(store.username, units(&longest));
    assert_eq!(store.password, units(&pass));
    assert!(store.is_ready);

    let too_long = "x".repeat(257);
    let mut store2 = SharedCredentials::new("");
    let mut l2 = connected_listener();
    assert_eq!(
        l2.step(ListenerEvent::MessageRead(Some(encode_message(&too_long))), &mut store2),
        ListenerAction::CloseChannel
    );
    assert_eq!(l2.exit, Some(ListenerExit::TransferIncomplete));
    assert!(store2.username.is_empty());
}

#[test]
fn unregistered_notifier_is_not_notified() {
    let mut store = SharedCredentials::new("");
    let mut l = connected_listener();
    assert!(l.notifier_registered);
    l.unregister_notifier();
    assert_eq!(l.step(ListenerEvent::MessageRead(Some(encode_message("alice"))), &mut store), ListenerAction::ReadMessage);
    assert_eq!(
        l.step(ListenerEvent::MessageRead(Some(encode_message("pw"))), &mut store),
        ListenerAction::CloseChannel
    );
    assert_eq!(l.exit, Some(ListenerExit::Served));
    assert!(store.is_ready);
}

#[test]
fn client_reports_first_write_failure_after_closing() {
    let (mut c, _) = ClientSession::new("a", "b");
    c.step(true);
    c.step(true);
    assert!(matches!(c.step(false), ClientAction::Write(_)));
    assert!(matches!(c.step(false), ClientAction::CloseChannel));
    assert!(matches!(c.step(true), ClientAction::Report(Err(ClientError::UsernameNotSent))));

    let (mut c2, _) = ClientSession::new("a", "b");
    c2.step(true);
    c2.step(true);
    c2.step(true);
    c2.step(false);
    assert!(matches!(c2.step(true), ClientAction::Report(Err(ClientError::PasswordNotSent))));

    let (mut c3, _) = ClientSession::new("a", "b");
    c3.step(true);
    assert!(matches!(c3.step(false), ClientAction::Report(Err(ClientError::OpenFailed))));
}
