use grammar::collection::Collector;
use grammar::components::synthesis::CaseElement;
use grammar::text::StringInput;
use grammar::type_info::{DynamicTypeInfo, StaticTypeInfo, Type, TypeId};

use uuid::Uuid;

struct Sum;

impl StaticTypeInfo for Sum {
    const TYPE: Type = Type { type_id: TypeId { id: Uuid::from_u128(7) } };
}

impl DynamicTypeInfo for Sum {
    fn get_type(&self) -> Type {
        Type { type_id: TypeId { id: Uuid::from_u128(7) } }
    }
}

struct Adding;

impl Collector for Adding {
    type Args = (u8, u8);
    type Result = Sum;
    fn collect(&self, _args: (u8, u8)) -> Sum {
        Sum
    }
}

#[test]
fn static_and_dynamic_type_information_agree() {
    let s = Adding.collect((1, 2));
    assert!(s.get_type().type_id == Sum::TYPE.type_id);
    assert!(Sum::TYPE.type_id != TypeId { id: Uuid::from_u128(8) });
}

#[test]
fn case_elements_order_tokens_before_references() {
    let t: CaseElement<u8, u8> = CaseElement::Tok(9);
    let r: CaseElement<u8, u8> = CaseElement::Ref(0);
    assert!(t < r);
    assert!(t == CaseElement::Tok(9));
}

#[test]
fn string_input_holds_its_text() {
    let input = StringInput("a.b()".to_string());
    assert_eq!(input.0, "a.b()");
}

#[test]
fn text_it_works() {
    let result = 2 + 2;
    assert_eq!(result, 4);
}

#[test]
fn derived_type_information_names_the_type_with_a_random_id() {
    let (name, id) = grammar::type_info::derive_type_info("pub struct S;").unwrap();
    assert_eq!(name, "S");
    let uuid = Uuid::from_u128(id);
    assert_eq!(uuid.get_version(), Some(uuid::Version::Random));
    assert_eq!((id >> 76) & 0xf, 4);
    assert_eq!((id >> 62) & 0x3, 2);
    let (other, other_id) = grammar::type_info::derive_type_info("enum T { A, B }").unwrap();
    assert_eq!(other, "T");
    assert_ne!(id, other_id);
    assert!(grammar::type_info::derive_type_info("not a type").is_none());
}
