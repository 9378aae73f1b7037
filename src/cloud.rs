//! Registration of cloud functions and cloud variables.
//!
//! A name is handed to the firmware as a fixed 13-byte, zero-padded,
//! null-terminated buffer: at most [`NAME_MAX`] bytes of payload and at least
//! one terminating zero.
use vstd::prelude::*;
use vstd::string::StringSliceAdditionalSpecFns;

use crate::ll::Spark_Data_TypeDef as DataType;

verus! {

/// The largest number of bytes that a cloud name may hold.
pub const NAME_MAX: usize = 12;

/// Why a registration did not happen.
#[derive(Clone, Copy, Debug, PartialEq, Eq, Structural)]
pub enum CloudError {
    /// The name holds more than [`NAME_MAX`] bytes; the firmware was not called.
    NameTooLong,
    /// The firmware refused the registration (table full, duplicate name, ...).
    RegistrationFailed,
}

/// The buffer that a name of `bytes` is encoded into: the bytes, then zeros up
/// to a length of 13.
pub open spec fn encoded_name(bytes: Seq<u8>) -> Seq<u8> {
    Seq::new(13, |i: int| if i < bytes.len() { bytes[i] } else { 0u8 })
}

/// A buffer that the firmware can read as a C string: 13 bytes, the last one zero.
pub open spec fn is_name_buffer(buf: Seq<u8>) -> bool {
    buf.len() == 13 && buf[12] == 0
}

/// What encoding a name of `bytes` gives: the buffer of [`encoded_name`] when
/// the name fits, `NameTooLong` when it does not.
pub open spec fn encodes_to(bytes: Seq<u8>, r: Result<[u8; 13], CloudError>) -> bool {
    match r {
        Ok(buf) => bytes.len() <= NAME_MAX && buf@ == encoded_name(bytes),
        Err(e) => bytes.len() > NAME_MAX && e == CloudError::NameTooLong,
    }
}

/// Encodes `name` into the buffer that the firmware expects, or refuses a name
/// longer than [`NAME_MAX`] bytes. Nothing is truncated.
pub fn encode_name(name: &str) -> (r: Result<[u8; 13], CloudError>)
    ensures
        encodes_to(name.spec_bytes(), r),
        name.spec_bytes().len() <= NAME_MAX <==> r is Ok,
{
    let bytes = name.as_bytes();
    if bytes.len() > NAME_MAX {
        return Err(CloudError::NameTooLong);
    }
    let mut buffer: [u8; 13] = [0u8; 13];
    let mut i: usize = 0;
    while i < bytes.len()
        invariant
            bytes@ == name.spec_bytes(),
            bytes@.len() <= NAME_MAX,
            i <= bytes@.len(),
            forall|j: int| 0 <= j < i ==> buffer@[j] == bytes@[j],
            forall|j: int| i <= j < 13 ==> buffer@[j] == 0,
        decreases bytes@.len() - i,
    {
        buffer[i] = bytes[i];
        i = i + 1;
    }
    assert(buffer@ =~= encoded_name(bytes@));
    Ok(buffer)
}

/// What the firmware's boolean reply means for the caller.
pub open spec fn outcome_of(accepted: bool) -> Result<(), CloudError> {
    if accepted {
        Ok(())
    } else {
        Err(CloudError::RegistrationFailed)
    }
}

/// Turns the firmware's reply to a registration into a result: `true` is
/// success, `false` is `RegistrationFailed`.
pub fn registration_outcome(accepted: bool) -> (r: Result<(), CloudError>)
    ensures
        r == outcome_of(accepted),
{
    if accepted {
        Ok(())
    } else {
        Err(CloudError::RegistrationFailed)
    }
}

/// The firmware's cloud registration entry points.
///
/// The device firmware implements this through its function table; a test
/// implements it with a recording substitute. A registered callback or
/// variable must stay valid for as long as the firmware may use it, which
/// implementors express through the types they choose for `Callback` and
/// `Variable` (a plain function, a reference to static data).
pub trait CloudRuntime {
    /// A cloud function as the firmware calls it.
    type Callback;

    /// A stable reference to a 32-bit integer that the firmware reads.
    type Variable;

    /// `Particle.function`: registers `callback` under the C string in `name`.
    /// Returns whether the firmware accepted it (at most 15 functions).
    fn spark_function(&mut self, name: &[u8; 13], callback: Self::Callback) -> (accepted: bool)
        requires
            is_name_buffer(name@),
    ;

    /// `Particle.variable`: registers `variable`, of type `ty`, under the C
    /// string in `name`. Returns whether the firmware accepted it (at most 20
    /// variables).
    fn spark_variable(
        &mut self,
        name: &[u8; 13],
        variable: Self::Variable,
        ty: DataType,
    ) -> (accepted: bool)
        requires
            is_name_buffer(name@),
    ;
}

/// A cloud runtime together with the history of the registrations handed to
/// it.
///
/// The runtime is reached only through this type, and each call to it is
/// recorded with exactly the arguments it was handed and the reply it gave.
pub struct Registrar<R: CloudRuntime> {
    runtime: R,
    functions: Ghost<Seq<(Seq<u8>, R::Callback, bool)>>,
    variables: Ghost<Seq<(Seq<u8>, R::Variable, DataType, bool)>>,
}

impl<R: CloudRuntime> Registrar<R> {
    /// The function registrations handed to the runtime so far, in order: the
    /// name buffer, the callback and the runtime's reply of each.
    pub closed spec fn function_calls(&self) -> Seq<(Seq<u8>, R::Callback, bool)> {
        self.functions@
    }

    /// The variable registrations handed to the runtime so far, in order: the
    /// name buffer, the variable, the type and the runtime's reply of each.
    pub closed spec fn variable_calls(&self) -> Seq<(Seq<u8>, R::Variable, DataType, bool)> {
        self.variables@
    }

    /// The runtime that registrations are handed to.
    pub closed spec fn spec_runtime(&self) -> R {
        self.runtime
    }

    /// Starts handing registrations to `runtime`, with an empty history.
    pub fn new(runtime: R) -> (r: Registrar<R>)
        ensures
            r.spec_runtime() == runtime,
            r.function_calls() == Seq::<(Seq<u8>, R::Callback, bool)>::empty(),
            r.variable_calls() == Seq::<(Seq<u8>, R::Variable, DataType, bool)>::empty(),
    {
        Registrar { runtime, functions: Ghost(Seq::empty()), variables: Ghost(Seq::empty()) }
    }

    /// The runtime, to inspect.
    pub fn runtime(&self) -> (r: &R)
        ensures
            *r == self.spec_runtime(),
    {
        &self.runtime
    }

    /// Gives the runtime back.
    pub fn into_runtime(self) -> (r: R)
        ensures
            r == self.spec_runtime(),
    {
        self.runtime
    }

    /// Hands one function registration to the runtime and records it.
    fn call_function(&mut self, name: &[u8; 13], callback: R::Callback) -> (accepted: bool)
        requires
            is_name_buffer(name@),
        ensures
            final(self).function_calls() == old(self).function_calls().push(
                (name@, callback, accepted),
            ),
            final(self).variable_calls() == old(self).variable_calls(),
    {
        let ghost entry = (name@, callback, false);
        let accepted = self.runtime.spark_function(name, callback);
        proof {
            self.functions@ = self.functions@.push((entry.0, entry.1, accepted));
        }
        accepted
    }

    /// Hands one variable registration to the runtime and records it.
    fn call_variable(&mut self, name: &[u8; 13], variable: R::Variable, ty: DataType) -> (accepted:
        bool)
        requires
            is_name_buffer(name@),
        ensures
            final(self).variable_calls() == old(self).variable_calls().push(
                (name@, variable, ty, accepted),
            ),
            final(self).function_calls() == old(self).function_calls(),
    {
        let ghost entry = (name@, variable, ty, false);
        let accepted = self.runtime.spark_variable(name, variable, ty);
        proof {
            self.variables@ = self.variables@.push((entry.0, entry.1, entry.2, accepted));
        }
        accepted
    }
}

/// Registers a cloud function under `name`.
///
/// A name longer than [`NAME_MAX`] bytes is refused with `NameTooLong` before
/// the runtime is called, and nothing changes. Otherwise the runtime is
/// called once, with the encoded name and `callback`, and the result follows
/// its reply: `Ok` when it accepted, `RegistrationFailed` when it refused.
pub fn function<R: CloudRuntime>(
    cloud: &mut Registrar<R>,
    name: &str,
    callback: R::Callback,
) -> (r: Result<(), CloudError>)
    ensures
        name.spec_bytes().len() > NAME_MAX ==> r == Err::<(), CloudError>(CloudError::NameTooLong)
            && *final(cloud) == *old(cloud),
        name.spec_bytes().len() <= NAME_MAX ==> {
            let calls = final(cloud).function_calls();
            &&& calls == old(cloud).function_calls().push(
                (encoded_name(name.spec_bytes()), callback, calls.last().2),
            )
            &&& r == outcome_of(calls.last().2)
            &&& final(cloud).variable_calls() == old(cloud).variable_calls()
        },
{
    match encode_name(name) {
        Err(e) => Err(e),
        Ok(buffer) => {
            let accepted = cloud.call_function(&buffer, callback);
            registration_outcome(accepted)
        },
    }
}

/// What registering a variable under a name of `bytes` hands to the runtime:
/// the encoded name and the type `CLOUD_VAR_INT` when the name fits,
/// `NameTooLong` when it does not.
pub open spec fn variable_request_for(
    bytes: Seq<u8>,
    r: Result<([u8; 13], DataType), CloudError>,
) -> bool {
    match r {
        Ok((buf, ty)) => bytes.len() <= NAME_MAX && buf@ == encoded_name(bytes) && ty
            == DataType::CLOUD_VAR_INT,
        Err(e) => bytes.len() > NAME_MAX && e == CloudError::NameTooLong,
    }
}

/// The name buffer and the variable type that [`variable`] hands to the
/// runtime for `name`, or `NameTooLong` for a name longer than
/// [`NAME_MAX`] bytes. Cloud variables registered here are 32-bit integers.
pub fn variable_request(name: &str) -> (r: Result<([u8; 13], DataType), CloudError>)
    ensures
        variable_request_for(name.spec_bytes(), r),
        name.spec_bytes().len() <= NAME_MAX <==> r is Ok,
{
    match encode_name(name) {
        Err(e) => Err(e),
        Ok(buffer) => Ok((buffer, DataType::CLOUD_VAR_INT)),
    }
}

/// Registers a cloud variable under `name`, as a 32-bit integer.
///
/// A name longer than [`NAME_MAX`] bytes is refused with `NameTooLong` before
/// the runtime is called, and nothing changes. Otherwise the runtime is
/// called once, with what [`variable_request`] makes of the name (the
/// encoded name and the type `CLOUD_VAR_INT`) and `value`, and the result
/// follows its reply: `Ok` when it accepted, `RegistrationFailed` when it
/// refused.
pub fn variable<R: CloudRuntime>(
    cloud: &mut Registrar<R>,
    name: &str,
    value: R::Variable,
) -> (r: Result<(), CloudError>)
    ensures
        name.spec_bytes().len() > NAME_MAX ==> r == Err::<(), CloudError>(CloudError::NameTooLong)
            && *final(cloud) == *old(cloud),
        name.spec_bytes().len() <= NAME_MAX ==> {
            let calls = final(cloud).variable_calls();
            &&& calls == old(cloud).variable_calls().push(
                (encoded_name(name.spec_bytes()), value, DataType::CLOUD_VAR_INT, calls.last().3),
            )
            &&& r == outcome_of(calls.last().3)
            &&& final(cloud).function_calls() == old(cloud).function_calls()
        },
{
    match variable_request(name) {
        Err(e) => Err(e),
        Ok((buffer, ty)) => {
            let accepted = cloud.call_variable(&buffer, value, ty);
            registration_outcome(accepted)
        },
    }
}

/// A name of at most [`NAME_MAX`] bytes encodes into 13 bytes that begin with
/// the name's bytes and hold a zero right after them, so the firmware reads
/// back exactly the name.
pub proof fn lemma_encoded_name_holds_name(bytes: Seq<u8>)
    requires
        bytes.len() <= NAME_MAX,
    ensures
        encoded_name(bytes).len() == 13,
        encoded_name(bytes).subrange(0, bytes.len() as int) == bytes,
        encoded_name(bytes)[bytes.len() as int] == 0,
        is_name_buffer(encoded_name(bytes)),
{
    assert(encoded_name(bytes).subrange(0, bytes.len() as int) =~= bytes);
}

/// Encoding the same name twice gives the same outcome: either both times
/// the same bytes, or both times `NameTooLong`.
pub proof fn lemma_encoding_is_deterministic(
    bytes: Seq<u8>,
    first: Result<[u8; 13], CloudError>,
    second: Result<[u8; 13], CloudError>,
)
    requires
        encodes_to(bytes, first),
        encodes_to(bytes, second),
    ensures
        first == second,
{
    if first is Ok {
        let a = first->Ok_0;
        let b = second->Ok_0;
        assert forall|i: int| 0 <= i < 13 implies a[i] == b[i] by {
            assert(a@[i] == b@[i]);
        }
        assert(a =~= b);
    }
}

} // verus!
