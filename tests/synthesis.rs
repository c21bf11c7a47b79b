use builder::synthesis;
use builder::synthesis::{render_source, Artifact, FieldDescriptor, RecordDeclaration, Shape, SynthesisError};

fn field(name: &str, ty: &str) -> FieldDescriptor {
    FieldDescriptor { name: name.to_string(), ty: ty.to_string() }
}

fn decl(name: &str, shape: Shape) -> RecordDeclaration {
    RecordDeclaration { name: name.to_string(), shape }
}

const POINT_SOURCE: &str = "impl Point {
    pub fn builder() -> PointBuilder {
        PointBuilder::new()
    }
}

pub struct PointBuilder {
    x: Option<i32>,
    label: Option<Vec<String>>,
}

impl PointBuilder {
    pub fn new() -> Self {
        Self {
            x: None,
            label: None,
        }
    }

    pub fn x(&mut self, value: i32) -> &mut Self {
        self.x = Some(value);
        self
    }

    pub fn label(&mut self, value: Vec<String>) -> &mut Self {
        self.label = Some(value);
        self
    }

    pub fn build(&mut self) -> Result<Point, &'static str> {
        let x = match self.x.take() {
            Some(v) => v,
            None => return Err(\"x\"),
        };
        let label = match self.label.take() {
            Some(v) => v,
            None => return Err(\"label\"),
        };
        Ok(Point {
            x,
            label,
        })
    }
}
";

#[test]
fn named_record_gets_full_builder() {
    let d = decl("Point", Shape::Named(vec![field("x", "i32"), field("label", "Vec<String>")]));
    let a: Artifact = synthesis::derive(&d).unwrap();
    assert_eq!(a.builder_name, "PointBuilder");
    assert_eq!(a.source, POINT_SOURCE);
}

#[test]
fn render_source_matches_derive() {
    let fs = vec![field("x", "i32"), field("label", "Vec<String>")];
    assert_eq!(render_source("Point", &fs), POINT_SOURCE);
}

#[test]
fn builder_name_appends_suffix() {
    let a = synthesis::derive(&decl("Foo", Shape::Named(vec![field("a", "u8")]))).unwrap();
    assert_eq!(a.builder_name, "FooBuilder");
    assert!(a.source.contains("pub struct FooBuilder {\n    a: Option<u8>,\n}"));
}

#[test]
fn record_without_fields_still_gets_builder() {
    let a = synthesis::derive(&decl("Empty", Shape::Named(vec![]))).unwrap();
    assert_eq!(a.builder_name, "EmptyBuilder");
    assert!(a.source.contains("pub struct EmptyBuilder {\n}"));
    assert!(a.source.contains("Ok(Empty {\n        })"));
}

#[test]
fn field_types_pass_through_unexamined() {
    let a = synthesis::derive(&decl("R", Shape::Named(vec![field("f", "HashMap<u8, &'static str>")]))).unwrap();
    assert!(a.source.contains("    f: Option<HashMap<u8, &'static str>>,\n"));
    assert!(a.source.contains("pub fn f(&mut self, value: HashMap<u8, &'static str>) -> &mut Self {"));
}

#[test]
fn tuple_record_is_rejected() {
    let r = synthesis::derive(&decl("Pair", Shape::Tuple(vec!["u8".to_string(), "u16".to_string()])));
    assert_eq!(r.err(), Some(SynthesisError::UnsupportedShape));
}

#[test]
fn unit_record_is_rejected() {
    assert_eq!(synthesis::derive(&decl("Marker", Shape::Unit)).err(), Some(SynthesisError::UnsupportedShape));
}

#[test]
fn enum_is_rejected() {
    assert_eq!(synthesis::derive(&decl("Color", Shape::Enum)).err(), Some(SynthesisError::UnsupportedShape));
}

#[test]
fn union_is_rejected() {
    assert_eq!(synthesis::derive(&decl("Bits", Shape::Union)).err(), Some(SynthesisError::UnsupportedShape));
}
