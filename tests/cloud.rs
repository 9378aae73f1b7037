use photon_hal::cloud::{
    encode_name, function, registration_outcome, variable, variable_request, CloudError,
    CloudRuntime, Registrar, NAME_MAX,
};
use photon_hal::ll::Spark_Data_TypeDef;

/// A stand-in for the firmware that records every registration and gives a
/// fixed reply.
struct Recorder {
    reply: bool,
    function_names: Vec<[u8; 13]>,
    callbacks: Vec<fn(&[u8]) -> i32>,
    variable_names: Vec<[u8; 13]>,
    variables: Vec<&'static i32>,
    tags: Vec<u8>,
}

impl Recorder {
    fn replying(reply: bool) -> Recorder {
        Recorder {
            reply,
            function_names: Vec::new(),
            callbacks: Vec::new(),
            variable_names: Vec::new(),
            variables: Vec::new(),
            tags: Vec::new(),
        }
    }

    fn calls(&self) -> usize {
        self.function_names.len() + self.variable_names.len()
    }
}

impl CloudRuntime for Recorder {
    type Callback = fn(&[u8]) -> i32;
    type Variable = &'static i32;

    fn spark_function(&mut self, name: &[u8; 13], callback: Self::Callback) -> bool {
        self.function_names.push(*name);
        self.callbacks.push(callback);
        self.reply
    }

    fn spark_variable(
        &mut self,
        name: &[u8; 13],
        variable: Self::Variable,
        ty: Spark_Data_TypeDef,
    ) -> bool {
        self.variable_names.push(*name);
        self.variables.push(variable);
        self.tags.push(ty.code());
        self.reply
    }
}

fn temperature(_arg: &[u8]) -> i32 {
    21
}

fn leaked(value: i32) -> &'static i32 {
    Box::leak(Box::new(value))
}

#[test]
fn encode_short_name_copies_bytes_and_terminates() {
    let buf = encode_name("tempF").unwrap();
    assert_eq!(buf, [b't', b'e', b'm', b'p', b'F', 0, 0, 0, 0, 0, 0, 0, 0]);
    assert_eq!(&buf[..5], "tempF".as_bytes());
    assert_eq!(buf[5], 0);
}

#[test]
fn encode_empty_name_is_all_zero() {
    assert_eq!(encode_name(""), Ok([0u8; 13]));
}

#[test]
fn encode_twelve_bytes_succeeds() {
    let name = "abcdefghijkl";
    assert_eq!(name.len(), NAME_MAX);
    let buf = encode_name(name).unwrap();
    assert_eq!(&buf[..12], name.as_bytes());
    assert_eq!(buf[12], 0);
}

#[test]
fn encode_thirteen_bytes_fails() {
    assert_eq!(encode_name("abcdefghijklm"), Err(CloudError::NameTooLong));
}

#[test]
fn encode_counts_bytes_not_characters() {
    // six two-byte characters fill the twelve bytes exactly; seven do not fit
    let fits = "éééééé";
    assert_eq!(fits.len(), 12);
    let buf = encode_name(fits).unwrap();
    assert_eq!(&buf[..12], fits.as_bytes());
    assert_eq!(buf[12], 0);
    assert_eq!(encode_name("ééééééé"), Err(CloudError::NameTooLong));
}

#[test]
fn encode_twice_gives_identical_buffers() {
    assert_eq!(encode_name("counter"), encode_name("counter"));
    assert_eq!(encode_name("much_too_long_a_name"), encode_name("much_too_long_a_name"));
}

#[test]
fn outcome_maps_reply() {
    assert_eq!(registration_outcome(true), Ok(()));
    assert_eq!(registration_outcome(false), Err(CloudError::RegistrationFailed));
}

#[test]
fn register_function_accepted() {
    let mut cloud = Registrar::new(Recorder::replying(true));
    assert_eq!(function(&mut cloud, "tempF", temperature), Ok(()));
    assert_eq!(cloud.runtime().calls(), 1);
    assert_eq!(
        cloud.runtime().function_names[0],
        [b't', b'e', b'm', b'p', b'F', 0, 0, 0, 0, 0, 0, 0, 0]
    );
    assert_eq!((cloud.runtime().callbacks[0])(b""), 21);
}

#[test]
fn register_function_refused() {
    let mut cloud = Registrar::new(Recorder::replying(false));
    assert_eq!(
        function(&mut cloud, "tempF", temperature),
        Err(CloudError::RegistrationFailed)
    );
    assert_eq!(cloud.runtime().calls(), 1);
}

#[test]
fn register_variable_refused_sees_int_tag_and_address() {
    let mut cloud = Registrar::new(Recorder::replying(false));
    let count = leaked(42);
    assert_eq!(variable(&mut cloud, "count", count), Err(CloudError::RegistrationFailed));
    assert_eq!(cloud.runtime().calls(), 1);
    assert_eq!(cloud.runtime().tags, vec![2]);
    assert!(std::ptr::eq(cloud.runtime().variables[0], count));
    assert_eq!(*cloud.runtime().variables[0], 42);
    assert_eq!(
        cloud.runtime().variable_names[0],
        [b'c', b'o', b'u', b'n', b't', 0, 0, 0, 0, 0, 0, 0, 0]
    );
}

#[test]
fn register_variable_accepted() {
    let mut cloud = Registrar::new(Recorder::replying(true));
    assert_eq!(variable(&mut cloud, "count", leaked(7)), Ok(()));
    assert_eq!(cloud.runtime().tags, vec![2]);
}

#[test]
fn register_function_name_too_long_never_calls() {
    let mut cloud = Registrar::new(Recorder::replying(true));
    assert_eq!(
        function(&mut cloud, "this_name_too_long", temperature),
        Err(CloudError::NameTooLong)
    );
    assert_eq!(cloud.runtime().calls(), 0);
}

#[test]
fn register_variable_name_too_long_never_calls() {
    let mut cloud = Registrar::new(Recorder::replying(true));
    assert_eq!(
        variable(&mut cloud, "this_name_too_long", leaked(1)),
        Err(CloudError::NameTooLong)
    );
    assert_eq!(cloud.runtime().calls(), 0);
}

#[test]
fn register_function_twelve_and_thirteen_bytes() {
    let mut cloud = Registrar::new(Recorder::replying(true));
    assert_eq!(function(&mut cloud, "abcdefghijkl", temperature), Ok(()));
    assert_eq!(
        function(&mut cloud, "abcdefghijklm", temperature),
        Err(CloudError::NameTooLong)
    );
    assert_eq!(cloud.runtime().calls(), 1);
    assert_eq!(&cloud.runtime().function_names[0][..12], b"abcdefghijkl");
    assert_eq!(cloud.runtime().function_names[0][12], 0);
}

#[test]
fn data_type_codes() {
    assert_eq!(Spark_Data_TypeDef::CLOUD_VAR_BOOLEAN.code(), 1);
    assert_eq!(Spark_Data_TypeDef::CLOUD_VAR_INT.code(), 2);
    assert_eq!(Spark_Data_TypeDef::CLOUD_VAR_STRING.code(), 4);
    assert_eq!(Spark_Data_TypeDef::CLOUD_VAR_DOUBLE.code(), 9);
}

#[test]
fn variable_request_is_int_tag_with_encoded_name() {
    let (buf, ty) = variable_request("count").unwrap();
    assert_eq!(buf, [b'c', b'o', b'u', b'n', b't', 0, 0, 0, 0, 0, 0, 0, 0]);
    assert_eq!(ty, Spark_Data_TypeDef::CLOUD_VAR_INT);
    assert_eq!(ty.code(), 2);
}

#[test]
fn variable_request_refuses_long_name() {
    assert_eq!(variable_request("this_name_too_long"), Err(CloudError::NameTooLong));
    assert_eq!(variable_request(""), Ok(([0u8; 13], Spark_Data_TypeDef::CLOUD_VAR_INT)));
}

#[test]
fn registrar_hands_back_its_runtime() {
    let mut cloud = Registrar::new(Recorder::replying(true));
    assert_eq!(function(&mut cloud, "a", temperature), Ok(()));
    assert_eq!(variable(&mut cloud, "b", leaked(3)), Ok(()));
    let recorder = cloud.into_runtime();
    assert_eq!(recorder.calls(), 2);
    assert_eq!(recorder.function_names[0][0], b'a');
    assert_eq!(recorder.variable_names[0][0], b'b');
}
