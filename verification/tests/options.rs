use ballot_bot::options::CommandOption;
use ballot_bot::options::OptionValue;

fn option(value: Option<OptionValue>) -> CommandOption {
    CommandOption { name: "any".to_string(), value }
}

#[test]
fn whole_number_as_i64() {
    assert_eq!(option(Some(OptionValue::Integer(0))).as_i64(), Some(0));
    assert_eq!(option(Some(OptionValue::Integer(-7))).as_i64(), Some(-7));
    assert_eq!(option(Some(OptionValue::Integer(i64::MAX as i128))).as_i64(), Some(i64::MAX));
    assert_eq!(option(Some(OptionValue::Integer(i64::MIN as i128))).as_i64(), Some(i64::MIN));
    assert_eq!(option(Some(OptionValue::Integer(i64::MAX as i128 + 1))).as_i64(), None);
    assert_eq!(option(Some(OptionValue::Integer(i64::MIN as i128 - 1))).as_i64(), None);
}

#[test]
fn whole_number_as_u64() {
    assert_eq!(option(Some(OptionValue::Integer(0))).as_u64(), Some(0));
    assert_eq!(option(Some(OptionValue::Integer(6))).as_u64(), Some(6));
    assert_eq!(option(Some(OptionValue::Integer(u64::MAX as i128))).as_u64(), Some(u64::MAX));
    assert_eq!(option(Some(OptionValue::Integer(-1))).as_u64(), None);
    assert_eq!(option(Some(OptionValue::Integer(u64::MAX as i128 + 1))).as_u64(), None);
}

#[test]
fn text_and_other_values_are_no_numbers() {
    assert_eq!(option(None).as_i64(), None);
    assert_eq!(option(None).as_u64(), None);
    assert_eq!(option(Some(OptionValue::Other)).as_i64(), None);
    assert_eq!(option(Some(OptionValue::Other)).as_u64(), None);
    assert_eq!(option(Some(OptionValue::Text("4".to_string()))).as_i64(), None);
    assert_eq!(option(Some(OptionValue::Text("4".to_string()))).as_u64(), None);
}

#[test]
fn value_as_text() {
    assert_eq!(option(Some(OptionValue::Text("a poll".to_string()))).as_text(), Some("a poll"));
    assert_eq!(option(Some(OptionValue::Text(String::new()))).as_text(), Some(""));
    assert_eq!(option(Some(OptionValue::Integer(3))).as_text(), None);
    assert_eq!(option(Some(OptionValue::Other)).as_text(), None);
    assert_eq!(option(None).as_text(), None);
}
