use builder::decl::{struct_fields, Data, Declaration, Field, Fields, SchemaError, Violation};
use builder::emit::{emit, render_list, render_part, Part};
use builder::schema::{field_meta, BuilderSchema, FieldMeta, RecordSchema};

fn field(ident: &str, ty: &str) -> Field {
    Field { ident: ident.to_string(), ty: ty.to_string() }
}

fn record(name: &str, fields: Vec<Field>) -> Declaration {
    Declaration { ident: name.to_string(), data: Data::Struct(Fields::Named(fields)) }
}

fn point() -> Declaration {
    record("Point", vec![field("x", "i32"), field("y", "i32")])
}

fn tokens(text: &str) -> String {
    syn::parse_str::<proc_macro2::TokenStream>(text).unwrap().to_string()
}

#[test]
fn point_builder_text_is_exact() {
    let text = builder::derive(&point()).unwrap();
    let expected = "struct PointBuilder { b_x : std::option::Option<i32>, b_y : std::option::Option<i32> } \
impl PointBuilder { \
pub fn x(&mut self, arg: i32) -> &mut Self { self.b_x = std::option::Option::Some(arg); self } \
pub fn y(&mut self, arg: i32) -> &mut Self { self.b_y = std::option::Option::Some(arg); self } \
pub fn build(&mut self) -> std::option::Option<Point> { \
std::option::Option::Some(Point { x : std::mem::take(&mut self.b_x)?, y : std::mem::take(&mut self.b_y)? }) } } \
impl Point { pub fn builder() -> PointBuilder { \
PointBuilder { b_x : std::option::Option::None, b_y : std::option::Option::None } } }";
    assert_eq!(text, expected);
}

#[test]
fn emitted_text_has_the_tokens_of_the_written_out_builder() {
    let text = builder::derive(&record(
        "Command",
        vec![field("executable", "String"), field("args", "Vec<String>"), field("retries", "u8")],
    ))
    .unwrap();
    let written = "
        struct CommandBuilder {
            b_executable: std::option::Option<String>,
            b_args: std::option::Option<Vec<String>>,
            b_retries: std::option::Option<u8>
        }

        impl CommandBuilder {
            pub fn executable(&mut self, arg: String) -> &mut Self {
                self.b_executable = std::option::Option::Some(arg);
                self
            }
            pub fn args(&mut self, arg: Vec<String>) -> &mut Self {
                self.b_args = std::option::Option::Some(arg);
                self
            }
            pub fn retries(&mut self, arg: u8) -> &mut Self {
                self.b_retries = std::option::Option::Some(arg);
                self
            }

            pub fn build(&mut self) -> std::option::Option<Command> {
                std::option::Option::Some(Command {
                    executable: std::mem::take(&mut self.b_executable)?,
                    args: std::mem::take(&mut self.b_args)?,
                    retries: std::mem::take(&mut self.b_retries)?
                })
            }
        }

        impl Command {
            pub fn builder() -> CommandBuilder {
                CommandBuilder {
                    b_executable: std::option::Option::None,
                    b_args: std::option::Option::None,
                    b_retries: std::option::Option::None
                }
            }
        }
    ";
    assert_eq!(tokens(&text), tokens(written));
}

#[test]
fn emitted_text_is_three_items() {
    let text = builder::derive(&point()).unwrap();
    let file = syn::parse_str::<syn::File>(&text).unwrap();
    assert_eq!(file.items.len(), 3);
    match &file.items[0] {
        syn::Item::Struct(s) => {
            assert_eq!(s.ident.to_string(), "PointBuilder");
            let names: Vec<String> =
                s.fields.iter().map(|f| f.ident.as_ref().unwrap().to_string()).collect();
            assert_eq!(names, vec!["b_x".to_string(), "b_y".to_string()]);
        }
        _ => panic!("the first item is the builder's declaration"),
    }
    match &file.items[1] {
        syn::Item::Impl(i) => {
            let names: Vec<String> = i
                .items
                .iter()
                .map(|item| match item {
                    syn::ImplItem::Fn(f) => f.sig.ident.to_string(),
                    _ => panic!("only functions are emitted"),
                })
                .collect();
            assert_eq!(names, vec!["x".to_string(), "y".to_string(), "build".to_string()]);
        }
        _ => panic!("the second item holds the setters and the finalizer"),
    }
    assert!(matches!(&file.items[2], syn::Item::Impl(_)));
}

#[test]
fn a_record_without_fields_is_generated() {
    let text = builder::derive(&record("Unit", vec![])).unwrap();
    let expected = "struct UnitBuilder {  } impl UnitBuilder {  \
pub fn build(&mut self) -> std::option::Option<Unit> { std::option::Option::Some(Unit {  }) } } \
impl Unit { pub fn builder() -> UnitBuilder { UnitBuilder {  } } }";
    assert_eq!(text, expected);
    assert_eq!(syn::parse_str::<syn::File>(&text).unwrap().items.len(), 3);
}

#[test]
fn a_single_field_has_no_separator() {
    let fields = vec![field_meta(&field("only", "u64"))];
    assert_eq!(render_list(Part::SlotDecl, &fields), "b_only : std::option::Option<u64>");
    assert_eq!(render_list(Part::EmptySlot, &fields), "b_only : std::option::Option::None");
    assert_eq!(render_list(Part::Take, &fields), "only : std::mem::take(&mut self.b_only)?");
    assert_eq!(render_list(Part::SlotDecl, &Vec::new()), "");
}

#[test]
fn pieces_of_one_field() {
    let m = field_meta(&field("name", "String"));
    assert_eq!(render_part(Part::SlotDecl, &m), "b_name : std::option::Option<String>");
    assert_eq!(render_part(Part::EmptySlot, &m), "b_name : std::option::Option::None");
    assert_eq!(
        render_part(Part::Setter, &m),
        "pub fn name(&mut self, arg: String) -> &mut Self { self.b_name = std::option::Option::Some(arg); self }"
    );
    assert_eq!(render_part(Part::Take, &m), "name : std::mem::take(&mut self.b_name)?");
}

#[test]
fn field_meta_names_the_slot_and_keeps_the_type() {
    let m = field_meta(&field("x", "Vec<u8>"));
    assert_eq!(
        m,
        FieldMeta {
            iden: "x".to_string(),
            builder_iden: "b_x".to_string(),
            typ: "Vec<u8>".to_string()
        }
    );
}

#[test]
fn struct_fields_keeps_declaration_order() {
    let decl = record("R", vec![field("z", "A"), field("a", "B"), field("m", "C")]);
    let fs = struct_fields(&decl).unwrap();
    assert_eq!(fs, vec![field("z", "A"), field("a", "B"), field("m", "C")]);
}

#[test]
fn schema_and_builder_schema_of_point() {
    let schema = RecordSchema::extract(&point()).unwrap();
    assert_eq!(schema.name, "Point");
    assert_eq!(schema.fields.len(), 2);
    assert_eq!(schema.fields[1].iden, "y");
    assert_eq!(schema.fields[1].builder_iden, "b_y");
    let b = schema.synthesize();
    assert_eq!(b.name, "PointBuilder");
    assert_eq!(b.record, "Point");
    assert_eq!(b.len(), 2);
    assert_eq!(b.setter(&"x".to_string()), Some(0));
    assert_eq!(b.setter(&"y".to_string()), Some(1));
    assert_eq!(b.setter(&"b_x".to_string()), None);
    assert_eq!(emit(&b), builder::derive(&point()).unwrap());
}

#[test]
fn emit_renders_any_schema() {
    let b = BuilderSchema { name: "B".to_string(), record: "R".to_string(), fields: Vec::new() };
    assert_eq!(
        emit(&b),
        "struct B {  } impl B {  pub fn build(&mut self) -> std::option::Option<R> { \
std::option::Option::Some(R {  }) } } impl R { pub fn builder() -> B { B {  } } }"
    );
}

fn refused(decl: Declaration) -> SchemaError {
    let err = builder::derive(&decl).unwrap_err();
    assert_eq!(struct_fields(&decl), Err(err.clone()));
    assert_eq!(RecordSchema::extract(&decl), Err(err.clone()));
    err
}

#[test]
fn a_sum_type_is_refused() {
    let err = refused(Declaration { ident: "Shape".to_string(), data: Data::Enum });
    assert_eq!(err.violation, Violation::NotAStruct);
    assert_eq!(err.declaration, "Shape");
    assert_eq!(err.message(), "Not a struct.");
}

#[test]
fn a_union_is_refused() {
    let err = refused(Declaration { ident: "Bits".to_string(), data: Data::Union });
    assert_eq!(err.violation, Violation::NotAStruct);
    assert_eq!(err.declaration, "Bits");
}

#[test]
fn a_tuple_struct_is_refused() {
    let err =
        refused(Declaration { ident: "Pair".to_string(), data: Data::Struct(Fields::Unnamed) });
    assert_eq!(err.violation, Violation::UnnamedFields);
    assert_eq!(err.declaration, "Pair");
    assert_eq!(err.message(), "Un-named fields, cannot create builder.");
}

#[test]
fn a_unit_struct_is_refused() {
    let err = refused(Declaration { ident: "Marker".to_string(), data: Data::Struct(Fields::Unit) });
    assert_eq!(err.violation, Violation::UnnamedFields);
}

#[test]
fn a_repeated_field_is_refused() {
    let err = refused(record("Twice", vec![field("a", "u8"), field("b", "u8"), field("a", "i8")]));
    assert_eq!(err.violation, Violation::DuplicateField);
    assert_eq!(err.declaration, "Twice");
    assert_eq!(err.message(), "Duplicate field name, cannot create builder.");
}

#[test]
fn idents_are_compared_whole() {
    assert!(builder::decl::idents_distinct(&vec![field("a", "u8"), field("ab", "u8")]));
    assert!(!builder::decl::idents_distinct(&vec![field("ab", "u8"), field("ab", "u8")]));
    assert!(builder::decl::idents_distinct(&Vec::new()));
}
