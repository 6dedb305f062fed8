//! The host-facing credential object: its field queries, the registration of
//! the host's change-notification capability, and the two-phase
//! serialization of a ready credential record into a logon token.
use vstd::prelude::*;
use crate::lifetime::{ModuleLifetime, dll_add_ref, dll_release, CLSID_SAMPLE_PROVIDER};
use crate::store::{SharedCredentials, principal_units_spec};
use crate::wide::{utf16_encode, wide_of, to_wide_vec};

verus! {

/// Field of the tile image.
pub const FIELD_TILE_IMAGE: u32 = 0;

/// Field of the tile's label.
pub const FIELD_LABEL: u32 = 1;

/// The text of the tile's label.
pub open spec fn tile_label_spec() -> Seq<char> {
    "Manson Winlogon自动登录"@
}

/// The fields this credential shows.
pub open spec fn is_known_field(field_id: u32) -> bool {
    field_id == FIELD_TILE_IMAGE || field_id == FIELD_LABEL
}

/// Conditions reported to the host.
#[derive(Debug, Clone, Copy, PartialEq, Eq, Structural)]
pub enum CredentialError {
    /// The record is not complete yet; the host polls again after the
    /// change notification.
    NotReady,
    /// The field identifier is not one of this credential's fields.
    InvalidArgument,
    /// The credential does not offer this affordance.
    NotImplemented,
    /// The packing facility gave no size, failed, or filled a buffer of
    /// another size.
    PackingFailure,
    /// The token of this attempt was already produced.
    AlreadySerialized,
    /// A serialization step came without the step before it.
    OutOfOrder,
}

/// How a field is displayed.
#[derive(Debug, Clone, Copy, PartialEq, Eq, Structural)]
pub enum FieldState {
    DisplayInBoth,
}

/// How a field reacts to the user.
#[derive(Debug, Clone, Copy, PartialEq, Eq, Structural)]
pub enum FieldInteractiveState {
    NotInteractive,
}

/// Where the credential object stands in the logon ceremony.
#[derive(Debug, Clone, Copy, PartialEq, Eq, Structural)]
pub enum CredentialState {
    Created,
    Advised,
    Selected,
    Deselected,
    /// A pack request was handed out; the facility's size is awaited.
    AwaitingSize,
    /// A buffer of `size` bytes is being filled.
    AwaitingFill { size: u32 },
    Finished,
}

/// What the packing facility is to be called with: the NUL-terminated
/// principal and password.
pub struct PackRequest {
    pub principal: Vec<u16>,
    pub password: Vec<u16>,
}

/// The logon token handed to the host, with the bookkeeping it needs.
pub struct SerializationToken {
    pub buffer: Vec<u8>,
    pub length: u32,
    pub provider_clsid: u128,
    pub auth_package_id: u32,
}

/// Where a selection toggle leaves the credential.
pub open spec fn after_toggle(s: CredentialState, target: CredentialState) -> CredentialState {
    match s {
        CredentialState::Created | CredentialState::Advised | CredentialState::Selected
        | CredentialState::Deselected => target,
        _ => s,
    }
}

/// First phase of serialization: the next state and the failure, if any.
pub open spec fn serialize_begin(s: CredentialState, ready: bool) -> (CredentialState, Option<
    CredentialError,
>) {
    if !ready {
        (if s == CredentialState::Finished {
            s
        } else {
            CredentialState::Advised
        }, Some(CredentialError::NotReady))
    } else if s == CredentialState::Finished {
        (s, Some(CredentialError::AlreadySerialized))
    } else {
        (CredentialState::AwaitingSize, None)
    }
}

/// Second phase: the size that the sizing call reported.
pub open spec fn serialize_size(s: CredentialState, size: u32) -> (CredentialState, Option<
    CredentialError,
>) {
    if s != CredentialState::AwaitingSize {
        (s, Some(CredentialError::OutOfOrder))
    } else if size == 0 {
        (CredentialState::Advised, Some(CredentialError::PackingFailure))
    } else {
        (CredentialState::AwaitingFill { size }, None)
    }
}

/// Last phase: the length of the filled buffer, or `None` when the filling
/// call failed.
pub open spec fn serialize_fill(s: CredentialState, filled: Option<nat>) -> (CredentialState, Option<
    CredentialError,
>) {
    match s {
        CredentialState::AwaitingFill { size } => {
            if size > 0 && filled == Some(size as nat) {
                (CredentialState::Finished, None)
            } else {
                (CredentialState::Advised, Some(CredentialError::PackingFailure))
            }
        },
        _ => (s, Some(CredentialError::OutOfOrder)),
    }
}

/// The length of a filled buffer, if there is one.
pub open spec fn filled_len(filled: Option<Vec<u8>>) -> Option<nat> {
    match filled {
        Some(b) => Some(b@.len()),
        None => None,
    }
}

/// The capability a notification would go to.
pub open spec fn notify_target_spec<E>(c: SampleCredential<E>) -> Option<E> {
    c.events
}

/// The credential after its capability was cleared.
pub open spec fn after_unadvise<E>(c: SampleCredential<E>) -> SampleCredential<E> {
    SampleCredential { events: None, ..c }
}

/// One logon option shown by the host. `E` is the host's change-notification
/// capability.
pub struct SampleCredential<E> {
    pub events: Option<E>,
    pub auth_package_id: u32,
    pub state: CredentialState,
}

impl<E> SampleCredential<E> {
    /// A new credential; it counts as a live object of the module.
    pub fn new(auth_package_id: u32, lifetime: &mut ModuleLifetime) -> (r: Self)
        requires
            old(lifetime).count < i64::MAX,
        ensures
            r.events is None,
            r.auth_package_id == auth_package_id,
            r.state == CredentialState::Created,
            final(lifetime).count == old(lifetime).count + 1,
    {
        dll_add_ref(lifetime);
        SampleCredential { events: None, auth_package_id, state: CredentialState::Created }
    }

    /// Ends the credential's life as an object of the module.
    pub fn destroy(self, lifetime: &mut ModuleLifetime)
        requires
            old(lifetime).count > i64::MIN,
        ensures
            final(lifetime).count == old(lifetime).count - 1,
    {
        dll_release(lifetime);
    }

    /// Registers the host's capability.
    pub fn advise(&mut self, events: E)
        ensures
            final(self).events == Some(events),
            final(self).auth_package_id == old(self).auth_package_id,
            final(self).state == (if old(self).state == CredentialState::Created {
                CredentialState::Advised
            } else {
                old(self).state
            }),
    {
        self.events = Some(events);
        if self.state == CredentialState::Created {
            self.state = CredentialState::Advised;
        }
    }

    /// Clears the registered capability.
    pub fn unadvise(&mut self)
        ensures
            *final(self) == after_unadvise(*old(self)),
            final(self).events is None,
            final(self).auth_package_id == old(self).auth_package_id,
            final(self).state == old(self).state,
    {
        self.events = None;
    }

    /// The capability to notify, if one is registered; notifications go
    /// through this and nothing else.
    pub fn notification_target(&self) -> (r: Option<&E>)
        ensures
            r is None <==> notify_target_spec(*self) is None,
            r matches Some(x) ==> notify_target_spec(*self) == Some(*x),
    {
        match &self.events {
            Some(e) => Some(e),
            None => None,
        }
    }

    /// The tile was selected; the host may log on at once.
    pub fn set_selected(&mut self) -> (auto_logon: bool)
        ensures
            auto_logon,
            final(self).state == after_toggle(old(self).state, CredentialState::Selected),
            final(self).events == old(self).events,
            final(self).auth_package_id == old(self).auth_package_id,
    {
        self.toggle(CredentialState::Selected);
        true
    }

    /// The tile was deselected.
    pub fn set_deselected(&mut self)
        ensures
            final(self).state == after_toggle(old(self).state, CredentialState::Deselected),
            final(self).events == old(self).events,
            final(self).auth_package_id == old(self).auth_package_id,
    {
        self.toggle(CredentialState::Deselected);
    }

    fn toggle(&mut self, target: CredentialState)
        ensures
            final(self).state == after_toggle(old(self).state, target),
            final(self).events == old(self).events,
            final(self).auth_package_id == old(self).auth_package_id,
    {
        match self.state {
            CredentialState::Created | CredentialState::Advised | CredentialState::Selected
            | CredentialState::Deselected => {
                self.state = target;
            },
            _ => {},
        }
    }

    /// Display and interaction state of a field: both fields are shown in
    /// the tile and the detail view and take no input.
    pub fn get_field_state(&self, field_id: u32) -> (r: Result<
        (FieldState, FieldInteractiveState),
        CredentialError,
    >)
        ensures
            is_known_field(field_id) ==> r == Ok::<_, CredentialError>(
                (FieldState::DisplayInBoth, FieldInteractiveState::NotInteractive),
            ),
            !is_known_field(field_id) ==> r == Err::<(FieldState, FieldInteractiveState), _>(
                CredentialError::InvalidArgument,
            ),
    {
        if field_id == FIELD_TILE_IMAGE || field_id == FIELD_LABEL {
            Ok((FieldState::DisplayInBoth, FieldInteractiveState::NotInteractive))
        } else {
            Err(CredentialError::InvalidArgument)
        }
    }

    /// The NUL-terminated text of a field: the label for the label field, an
    /// empty text for the image.
    pub fn get_string_value(&self, field_id: u32) -> (r: Result<Vec<u16>, CredentialError>)
        ensures
            field_id == FIELD_LABEL ==> (r matches Ok(v) && v@ == wide_of(tile_label_spec())),
            field_id == FIELD_TILE_IMAGE ==> (r matches Ok(v) && v@ == seq![0u16]),
            !is_known_field(field_id) ==> (r matches Err(e) && e == CredentialError::InvalidArgument),
    {
        if field_id == FIELD_LABEL {
            Ok(to_wide_vec("Manson Winlogon自动登录"))
        } else if field_id == FIELD_TILE_IMAGE {
            let mut v: Vec<u16> = Vec::new();
            v.push(0u16);
            assert(v@ =~= seq![0u16]);
            Ok(v)
        } else {
            Err(CredentialError::InvalidArgument)
        }
    }

    /// The image of a field: the host's default image for both fields.
    pub fn get_bitmap_value(&self, field_id: u32) -> (r: Result<(), CredentialError>)
        ensures
            is_known_field(field_id) ==> r == Ok::<(), CredentialError>(()),
            !is_known_field(field_id) ==> r == Err::<(), CredentialError>(
                CredentialError::InvalidArgument,
            ),
    {
        if field_id == FIELD_TILE_IMAGE || field_id == FIELD_LABEL {
            Ok(())
        } else {
            Err(CredentialError::InvalidArgument)
        }
    }

    /// No checkbox is offered.
    pub fn get_checkbox_value(&self, field_id: u32) -> (r: Result<(), CredentialError>)
        ensures
            r == Err::<(), CredentialError>(CredentialError::NotImplemented),
    {
        Err(CredentialError::NotImplemented)
    }

    /// No submit button is offered.
    pub fn get_submit_button_value(&self, field_id: u32) -> (r: Result<u32, CredentialError>)
        ensures
            r == Err::<u32, CredentialError>(CredentialError::NotImplemented),
    {
        Err(CredentialError::NotImplemented)
    }

    /// No combo box is offered.
    pub fn get_combo_box_value_count(&self, field_id: u32) -> (r: Result<(), CredentialError>)
        ensures
            r == Err::<(), CredentialError>(CredentialError::NotImplemented),
    {
        Err(CredentialError::NotImplemented)
    }

    /// No combo box is offered.
    pub fn get_combo_box_value_at(&self, field_id: u32, item: u32) -> (r: Result<
        Vec<u16>,
        CredentialError,
    >)
        ensures
            r matches Err(e) && e == CredentialError::NotImplemented,
    {
        Err(CredentialError::NotImplemented)
    }

    /// No field takes text.
    pub fn set_string_value(&self, field_id: u32) -> (r: Result<(), CredentialError>)
        ensures
            r == Err::<(), CredentialError>(CredentialError::NotImplemented),
    {
        Err(CredentialError::NotImplemented)
    }

    /// No checkbox is offered.
    pub fn set_checkbox_value(&self, field_id: u32, checked: bool) -> (r: Result<
        (),
        CredentialError,
    >)
        ensures
            r == Err::<(), CredentialError>(CredentialError::NotImplemented),
    {
        Err(CredentialError::NotImplemented)
    }

    /// No combo box is offered.
    pub fn set_combo_box_selected_value(&self, field_id: u32, item: u32) -> (r: Result<
        (),
        CredentialError,
    >)
        ensures
            r == Err::<(), CredentialError>(CredentialError::NotImplemented),
    {
        Err(CredentialError::NotImplemented)
    }

    /// No command link is offered.
    pub fn command_link_clicked(&self, field_id: u32) -> (r: Result<(), CredentialError>)
        ensures
            r == Err::<(), CredentialError>(CredentialError::NotImplemented),
    {
        Err(CredentialError::NotImplemented)
    }

    /// No details of the logon result are reported.
    pub fn report_result(&self, status: i32, substatus: i32) -> (r: Result<(), CredentialError>)
        ensures
            r == Err::<(), CredentialError>(CredentialError::NotImplemented),
    {
        Err(CredentialError::NotImplemented)
    }

    /// First phase of serialization. A complete record yields the pack
    /// request, the principal and the password, both NUL-terminated; an
    /// incomplete one yields `NotReady` and nothing else.
    pub fn get_serialization(&mut self, store: &SharedCredentials) -> (r: Result<
        PackRequest,
        CredentialError,
    >)
        ensures
            final(self).state == serialize_begin(old(self).state, store.is_ready).0,
            r is Ok <==> serialize_begin(old(self).state, store.is_ready).1 is None,
            r matches Err(e) ==> serialize_begin(old(self).state, store.is_ready).1 == Some(e),
            r matches Ok(p) ==> p.principal@ == principal_units_spec(
                store.domain@,
                store.username@,
            ).push(0u16) && p.password@ == store.password@.push(0u16),
            final(self).events == old(self).events,
            final(self).auth_package_id == old(self).auth_package_id,
    {
        if !store.is_ready {
            if self.state != CredentialState::Finished {
                self.state = CredentialState::Advised;
            }
            return Err(CredentialError::NotReady);
        }
        if self.state == CredentialState::Finished {
            return Err(CredentialError::AlreadySerialized);
        }
        let mut principal = store.principal_units();
        principal.push(0u16);
        let mut password = store.password.clone();
        password.push(0u16);
        self.state = CredentialState::AwaitingSize;
        Ok(PackRequest { principal, password })
    }

    /// Second phase: the size the packing facility reported for the
    /// request. A non-zero size is the length of the buffer to fill.
    pub fn accept_pack_size(&mut self, size: u32) -> (r: Result<usize, CredentialError>)
        ensures
            final(self).state == serialize_size(old(self).state, size).0,
            r is Ok <==> serialize_size(old(self).state, size).1 is None,
            r matches Err(e) ==> serialize_size(old(self).state, size).1 == Some(e),
            r matches Ok(n) ==> n == size && n > 0,
            final(self).events == old(self).events,
            final(self).auth_package_id == old(self).auth_package_id,
    {
        if self.state != CredentialState::AwaitingSize {
            return Err(CredentialError::OutOfOrder);
        }
        if size == 0 {
            self.state = CredentialState::Advised;
            return Err(CredentialError::PackingFailure);
        }
        self.state = CredentialState::AwaitingFill { size };
        Ok(size as usize)
    }

    /// Last phase: the buffer the packing facility filled, or `None` when
    /// filling failed. A buffer of the announced size becomes the token.
    pub fn finish_serialization(&mut self, filled: Option<Vec<u8>>) -> (r: Result<
        SerializationToken,
        CredentialError,
    >)
        ensures
            final(self).state == serialize_fill(old(self).state, filled_len(filled)).0,
            r is Ok <==> serialize_fill(old(self).state, filled_len(filled)).1 is None,
            r matches Err(e) ==> serialize_fill(old(self).state, filled_len(filled)).1 == Some(e),
            r matches Ok(t) ==> (filled matches Some(b) && b@ == t.buffer@),
            r matches Ok(t) ==> t.buffer@.len() == t.length && t.length > 0,
            r matches Ok(t) ==> old(self).state == (CredentialState::AwaitingFill { size: t.length }),
            r matches Ok(t) ==> t.provider_clsid == CLSID_SAMPLE_PROVIDER,
            r matches Ok(t) ==> t.auth_package_id == old(self).auth_package_id,
            final(self).events == old(self).events,
            final(self).auth_package_id == old(self).auth_package_id,
    {
        match self.state {
            CredentialState::AwaitingFill { size } => {
                match filled {
                    Some(buffer) => {
                        if size > 0 && buffer.len() == size as usize {
                            self.state = CredentialState::Finished;
                            Ok(
                                SerializationToken {
                                    buffer,
                                    length: size,
                                    provider_clsid: CLSID_SAMPLE_PROVIDER,
                                    auth_package_id: self.auth_package_id,
                                },
                            )
                        } else {
                            self.state = CredentialState::Advised;
                            Err(CredentialError::PackingFailure)
                        }
                    },
                    None => {
                        self.state = CredentialState::Advised;
                        Err(CredentialError::PackingFailure)
                    },
                }
            },
            _ => Err(CredentialError::OutOfOrder),
        }
    }
}

/// Once the capability is cleared there is nothing to notify, and the
/// selection toggles do not bring it back.
pub proof fn lemma_unadvise_silences<E>(c: SampleCredential<E>, target: CredentialState)
    ensures
        notify_target_spec(after_unadvise(c)) is None,
        notify_target_spec(
            SampleCredential {
                state: after_toggle(after_unadvise(c).state, target),
                ..after_unadvise(c)
            },
        ) is None,
{
}

/// Asking for a token before the record is complete fails with `NotReady`
/// and hands out nothing, whatever the credential's state.
pub proof fn lemma_not_ready_fails(s: CredentialState)
    ensures
        serialize_begin(s, false).1 == Some(CredentialError::NotReady),
        serialize_begin(s, false).0 != CredentialState::AwaitingSize,
{
}

/// On a complete record, a serialization that the facility sizes at `size`
/// bytes and fills with `size` bytes succeeds and finishes the attempt;
/// a zero size always fails; and a second serialization in the same attempt
/// is refused.
pub proof fn lemma_serialization_once(s: CredentialState, size: u32)
    requires
        s != CredentialState::Finished,
        size > 0,
    ensures
        serialize_begin(s, true) == (CredentialState::AwaitingSize, None::<CredentialError>),
        serialize_size(CredentialState::AwaitingSize, 0).1 == Some(CredentialError::PackingFailure),
        serialize_size(CredentialState::AwaitingSize, size) == (
        CredentialState::AwaitingFill { size }, None::<CredentialError>),
        serialize_fill(CredentialState::AwaitingFill { size }, Some(size as nat)) == (
        CredentialState::Finished, None::<CredentialError>),
        forall|n: nat|
            n != size ==> #[trigger] serialize_fill(CredentialState::AwaitingFill { size }, Some(n)).1
                == Some(CredentialError::PackingFailure),
        serialize_begin(CredentialState::Finished, true).1 == Some(
            CredentialError::AlreadySerialized,
        ),
{
}

} // verus!
