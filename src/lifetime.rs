//! The module's usage count, which decides when the host may unload it, and
//! the checks made before handing out class objects.
use vstd::prelude::*;

verus! {

/// The class identifier under which the credential provider is registered:
/// {8a7b9c6d-4e5f-89a0-8b7c-6d5e4f3e2d1c}.
pub const CLSID_SAMPLE_PROVIDER: u128 = 0x8a7b9c6d_4e5f_89a0_8b7c_6d5e4f3e2d1c;

/// Counts the live host-facing objects and server locks of the module.
pub struct ModuleLifetime {
    pub count: i64,
}

impl ModuleLifetime {
    /// No object alive, no lock held.
    pub fn new() -> (r: ModuleLifetime)
        ensures
            r.count == 0,
    {
        ModuleLifetime { count: 0 }
    }

    /// The module may be unloaded exactly when the count is zero.
    pub fn can_unload_now(&self) -> (r: bool)
        ensures
            r == (self.count == 0),
    {
        self.count == 0
    }
}

/// Counts one more object or lock.
pub fn dll_add_ref(lifetime: &mut ModuleLifetime)
    requires
        old(lifetime).count < i64::MAX,
    ensures
        final(lifetime).count == old(lifetime).count + 1,
{
    lifetime.count = lifetime.count + 1;
}

/// Counts one object or lock less.
pub fn dll_release(lifetime: &mut ModuleLifetime)
    requires
        old(lifetime).count > i64::MIN,
    ensures
        final(lifetime).count == old(lifetime).count - 1,
{
    lifetime.count = lifetime.count - 1;
}

/// Takes (`lock`) or drops a server lock.
pub fn lock_server(lifetime: &mut ModuleLifetime, lock: bool)
    requires
        old(lifetime).count < i64::MAX,
        old(lifetime).count > i64::MIN,
    ensures
        lock ==> final(lifetime).count == old(lifetime).count + 1,
        !lock ==> final(lifetime).count == old(lifetime).count - 1,
{
    if lock {
        dll_add_ref(lifetime);
    } else {
        dll_release(lifetime);
    }
}

/// Why a class object or an instance is refused.
#[derive(Debug, Clone, Copy, PartialEq, Eq, Structural)]
pub enum ClassError {
    /// A required pointer argument is missing.
    InvalidArgument,
    /// The requested class is not the one this module serves.
    ClassNotAvailable,
    /// Aggregation was asked for; it is not supported.
    NoAggregation,
}

/// Decides a class-object request: every pointer argument must be present,
/// and the class must be the provider's.
pub fn check_class_object_request(clsid: Option<u128>, iid_present: bool, out_present: bool) -> (r:
    Result<(), ClassError>)
    ensures
        (clsid is None || !iid_present || !out_present) ==> r == Err::<(), ClassError>(
            ClassError::InvalidArgument,
        ),
        (clsid is Some && iid_present && out_present) ==> (r == if clsid == Some(
            CLSID_SAMPLE_PROVIDER,
        ) {
            Ok::<(), ClassError>(())
        } else {
            Err(ClassError::ClassNotAvailable)
        }),
{
    match clsid {
        None => Err(ClassError::InvalidArgument),
        Some(id) => {
            if !iid_present || !out_present {
                Err(ClassError::InvalidArgument)
            } else if id == CLSID_SAMPLE_PROVIDER {
                Ok(())
            } else {
                Err(ClassError::ClassNotAvailable)
            }
        },
    }
}

/// Decides an instance request of the class factory: no outer object, and
/// an output pointer to write to.
pub fn check_create_instance(has_outer: bool, out_present: bool) -> (r: Result<(), ClassError>)
    ensures
        has_outer ==> r == Err::<(), ClassError>(ClassError::NoAggregation),
        !has_outer && !out_present ==> r == Err::<(), ClassError>(ClassError::InvalidArgument),
        !has_outer && out_present ==> r == Ok::<(), ClassError>(()),
{
    if has_outer {
        Err(ClassError::NoAggregation)
    } else if !out_present {
        Err(ClassError::InvalidArgument)
    } else {
        Ok(())
    }
}

} // verus!
