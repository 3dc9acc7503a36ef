use by_the_peoples::mocking::{Count, Method};

#[derive(Clone, Eq, PartialEq, Debug)]
struct TestStruct;

struct Container<T: Clone + std::fmt::Debug> {
    pub method: Method<T, &'static str>,
}

impl<T: Clone + std::fmt::Debug> Container<T> {
    pub fn new() -> Container<T> {
        Container {
            method: Method::new("test container method"),
        }
    }
    pub fn get(&mut self) -> Result<T, &'static str> {
        self.method.call()
    }
    pub fn get_mut(&mut self) -> Result<T, &'static str> {
        self.method.call_mut()
    }
}

#[test]
fn it_returns_pre_defined_values_when_call_is_called() {
    let test_value = TestStruct;
    let mut container: Container<&TestStruct> = Container::new();
    container.method.returns_value(&test_value);
    let result = container.get().unwrap();
    assert_eq!(result, &test_value);
}

#[test]
fn it_returns_pre_defined_values_when_call_mut_is_called() {
    let test_value = TestStruct;
    let mut container: Container<&TestStruct> = Container::new();
    container.method.returns_value(&test_value);
    let result = container.get_mut().unwrap();
    assert_eq!(result, &test_value);
}

#[test]
fn it_returns_pre_defined_errors_when_call_is_called() {
    let error_value = "test error";
    let mut container: Container<&TestStruct> = Container::new();
    container.method.throws_error(&error_value);
    let error = container.get().err().unwrap();
    assert_eq!(error, error_value);
}

#[test]
fn it_returns_pre_defined_errors_when_call_mut_is_called() {
    let error_value = "test error";
    let mut container: Container<&TestStruct> = Container::new();
    container.method.throws_error(&error_value);
    let error = container.get_mut().err().unwrap();
    assert_eq!(error, error_value);
}

#[test]
fn it_returns_multiple_values_from_call() {
    let test_value = TestStruct;
    let test_value2 = TestStruct;
    let mut container: Container<&TestStruct> = Container::new();
    container.method.returns_value(&test_value).returns_value(&test_value2);
    let _result = container.get().unwrap();
    let result2 = container.get().unwrap();
    assert_eq!(result2, &test_value2);
}

#[test]
fn it_returns_multiple_values_from_call_mut() {
    let test_value = TestStruct;
    let test_value2 = TestStruct;
    let mut container: Container<&TestStruct> = Container::new();
    container.method.returns_value(&test_value).returns_value(&test_value2);
    let _result = container.get_mut().unwrap();
    let result2 = container.get_mut().unwrap();
    assert_eq!(result2, &test_value2);
}

#[test]
fn it_returns_errors_and_values_from_call() {
    let test_value = TestStruct;
    let test_error = "test error";
    let mut container = Container::<&TestStruct>::new();
    container
        .method
        .returns_value(&test_value)
        .throws_error(test_error);
    let result = container.get().unwrap();
    let error = container.get().err().unwrap();
    assert_eq!(result, &test_value);
    assert_eq!(error, test_error);
}

#[test]
fn it_returns_errors_and_values_from_call_mut() {
    let test_value = TestStruct;
    let test_error = "test error";
    let mut container = Container::<&TestStruct>::new();
    container
        .method
        .returns_value(&test_value)
        .throws_error(test_error);
    let result = container.get_mut().unwrap();
    let error = container.get_mut().err().unwrap();
    assert_eq!(result, &test_value);
    assert_eq!(error, test_error);
}

#[test]
#[should_panic]
fn it_panics_if_call_is_called_and_there_are_no_values_to_return() {
    let _ = Container::<TestStruct>::new().get();
}

#[test]
#[should_panic]
fn it_panics_if_call_mut_is_called_and_there_are_no_values_to_return() {
    let _ = Container::<TestStruct>::new().get_mut();
}

#[test]
fn it_records_the_number_of_times_the_call_method_was_called() {
    let test_value = TestStruct;
    let test_value2 = TestStruct;
    let mut container: Container<&TestStruct> = Container::new();
    container.method.returns_value(&test_value).returns_value(&test_value2);
    let _result = container.get().unwrap();
    let _result2 = container.get().unwrap();
    assert_eq!(container.method.times_called(), 2);
}

#[test]
fn it_records_the_number_of_times_the_call_mut_method_was_called() {
    let test_value = TestStruct;
    let test_value2 = TestStruct;
    let mut container: Container<&TestStruct> = Container::new();
    container.method.returns_value(&test_value).returns_value(&test_value2);
    let _result = container.get_mut().unwrap();
    let _result2 = container.get_mut().unwrap();
    assert_eq!(container.method.times_called(), 2);
}

#[test]
fn lib_it_works() {
    assert_eq!(2 + 2, 4);
}

#[test]
fn count_starts_at_zero_and_counts_up() {
    let mut count = Count::new();
    assert_eq!(count.get(), 0);
    count.increment();
    count.increment();
    assert_eq!(count.get(), 2);
}

#[test]
fn registering_answers_does_not_count_as_calls() {
    let mut method: Method<u32, String> = Method::new("lookup");
    method.returns_value(7).throws_error(String::from("gone")).returns_value(9);
    assert_eq!(method.times_called(), 0);
    assert_eq!(method.call(), Ok(7));
    assert_eq!(method.call_mut(), Err(String::from("gone")));
    assert_eq!(method.call(), Ok(9));
    assert_eq!(method.times_called(), 3);
}
