//! From a record declaration to the source text of its builder.
use vstd::prelude::*;
use vstd::string::*;

verus! {

/// A named field: its identifier and its type, kept as source text and never
/// examined.
#[derive(Debug, Clone, PartialEq, Eq)]
pub struct FieldDescriptor {
    pub name: String,
    pub ty: String,
}

/// The shape of a declared type.
pub enum Shape {
    /// A record with named fields, in declaration order.
    Named(Vec<FieldDescriptor>),
    /// A tuple-like record; holds the types of its positional fields.
    Tuple(Vec<String>),
    /// A record without fields.
    Unit,
    /// An enumeration.
    Enum,
    /// A union.
    Union,
}

/// A parsed type declaration: its identifier and shape.
pub struct RecordDeclaration {
    pub name: String,
    pub shape: Shape,
}

/// Why no builder could be generated.
#[derive(PartialEq, Eq, Structural, Debug, Clone, Copy)]
pub enum SynthesisError {
    /// The declaration is not a record with named fields.
    UnsupportedShape,
}

/// What generation produces for one record.
#[derive(Debug, Clone, PartialEq, Eq)]
pub struct Artifact {
    /// The identifier of the generated builder type.
    pub builder_name: String,
    /// The generated source: the factory method on the record, the builder
    /// type, its constructor, one setter per field and `build`.
    pub source: String,
}

/// The builder type's identifier: the record's with `Builder` appended.
pub open spec fn builder_name_of(name: Seq<char>) -> Seq<char> {
    name + "Builder"@
}

/// The part of the generated source that is repeated for each field.
pub enum Piece {
    /// The field's slot in the builder type.
    Slot,
    /// The field's empty slot in the constructor.
    Empty,
    /// The field's setter.
    Setter,
    /// Taking the field's value out of its slot in `build`, or failing.
    Take,
    /// The field in the record that `build` returns.
    Init,
}

/// The text of piece `p` for field `f`.
pub open spec fn piece_text(p: Piece, f: FieldDescriptor) -> Seq<char> {
    let n = f.name@;
    let t = f.ty@;
    match p {
        Piece::Slot => "    "@ + n + ": Option<"@ + t + ">,\n"@,
        Piece::Empty => "            "@ + n + ": None,\n"@,
        Piece::Setter => "    pub fn "@ + n + "(&mut self, value: "@ + t + ") -> &mut Self {\n        self."@ + n
            + " = Some(value);\n        self\n    }\n\n"@,
        Piece::Take => "        let "@ + n + " = match self."@ + n + ".take() {\n            Some(v) => v,\n            None => return Err(\""@
            + n + "\"),\n        };\n"@,
        Piece::Init => "            "@ + n + ",\n"@,
    }
}

/// Piece `p` of each field of `fs`, in order.
pub open spec fn pieces_text(p: Piece, fs: Seq<FieldDescriptor>) -> Seq<char>
    decreases fs.len(),
{
    if fs.len() == 0 {
        Seq::empty()
    } else {
        pieces_text(p, fs.drop_last()) + piece_text(p, fs.last())
    }
}

/// The whole generated source for record `r` with fields `fs`.
pub open spec fn artifact_text(r: Seq<char>, fs: Seq<FieldDescriptor>) -> Seq<char> {
    let b = builder_name_of(r);
    "impl "@ + r + " {\n    pub fn builder() -> "@ + b + " {\n        "@ + b + "::new()\n    }\n}\n\npub struct "@ + b
        + " {\n"@ + pieces_text(Piece::Slot, fs) + "}\n\nimpl "@ + b
        + " {\n    pub fn new() -> Self {\n        Self {\n"@ + pieces_text(Piece::Empty, fs)
        + "        }\n    }\n\n"@ + pieces_text(Piece::Setter, fs)
        + "    pub fn build(&mut self) -> Result<"@ + r + ", &'static str> {\n"@ + pieces_text(Piece::Take, fs)
        + "        Ok("@ + r + " {\n"@ + pieces_text(Piece::Init, fs) + "        })\n    }\n}\n"@
}

/// The text of piece `p` for field `f`.
fn render_piece(p: &Piece, f: &FieldDescriptor) -> (r: String)
    ensures
        r@ == piece_text(*p, *f),
{
    let n = f.name.as_str();
    let t = f.ty.as_str();
    let mut out = String::new();
    match p {
        Piece::Slot => {
            out.append("    ");
            out.append(n);
            out.append(": Option<");
            out.append(t);
            out.append(">,\n");
        },
        Piece::Empty => {
            out.append("            ");
            out.append(n);
            out.append(": None,\n");
        },
        Piece::Setter => {
            out.append("    pub fn ");
            out.append(n);
            out.append("(&mut self, value: ");
            out.append(t);
            out.append(") -> &mut Self {\n        self.");
            out.append(n);
            out.append(" = Some(value);\n        self\n    }\n\n");
        },
        Piece::Take => {
            out.append("        let ");
            out.append(n);
            out.append(" = match self.");
            out.append(n);
            out.append(".take() {\n            Some(v) => v,\n            None => return Err(\"");
            out.append(n);
            out.append("\"),\n        };\n");
        },
        Piece::Init => {
            out.append("            ");
            out.append(n);
            out.append(",\n");
        },
    }
    assert(out@ =~= piece_text(*p, *f));
    out
}

/// Appends piece `p` of each field of `fs`, in order, to `out`.
fn append_pieces(out: &mut String, p: &Piece, fs: &Vec<FieldDescriptor>)
    ensures
        final(out)@ == old(out)@ + pieces_text(*p, fs@),
{
    let ghost start = out@;
    let mut i: usize = 0;
    while i < fs.len()
        invariant
            i <= fs@.len(),
            out@ == start + pieces_text(*p, fs@.take(i as int)),
        decreases fs@.len() - i,
    {
        let piece = render_piece(p, &fs[i]);
        out.append(piece.as_str());
        proof {
            assert(fs@.take(i + 1).drop_last() =~= fs@.take(i as int));
            assert(out@ =~= start + pieces_text(*p, fs@.take(i + 1)));
        }
        i = i + 1;
    }
    assert(fs@.take(fs@.len() as int) =~= fs@);
}

/// The generated source for record `name` with fields `fs`.
pub fn render_source(name: &str, fs: &Vec<FieldDescriptor>) -> (r: String)
    ensures
        r@ == artifact_text(name@, fs@),
{
    let mut b = String::from_str(name);
    b.append("Builder");
    let b = b.as_str();
    let mut out = String::new();
    out.append("impl ");
    out.append(name);
    out.append(" {\n    pub fn builder() -> ");
    out.append(b);
    out.append(" {\n        ");
    out.append(b);
    out.append("::new()\n    }\n}\n\npub struct ");
    out.append(b);
    out.append(" {\n");
    append_pieces(&mut out, &Piece::Slot, fs);
    out.append("}\n\nimpl ");
    out.append(b);
    out.append(" {\n    pub fn new() -> Self {\n        Self {\n");
    append_pieces(&mut out, &Piece::Empty, fs);
    out.append("        }\n    }\n\n");
    append_pieces(&mut out, &Piece::Setter, fs);
    out.append("    pub fn build(&mut self) -> Result<");
    out.append(name);
    out.append(", &'static str> {\n");
    append_pieces(&mut out, &Piece::Take, fs);
    out.append("        Ok(");
    out.append(name);
    out.append(" {\n");
    append_pieces(&mut out, &Piece::Init, fs);
    out.append("        })\n    }\n}\n");
    assert(out@ =~= artifact_text(name@, fs@));
    out
}

/// Generates the builder for `decl`. A record with named fields always gets
/// one, named after the record with `Builder` appended; every other shape is
/// rejected with `UnsupportedShape` and nothing is generated.
pub fn derive(decl: &RecordDeclaration) -> (r: Result<Artifact, SynthesisError>)
    ensures
        match decl.shape {
            Shape::Named(fs) => r is Ok && r->Ok_0.builder_name@ == builder_name_of(decl.name@)
                && r->Ok_0.source@ == artifact_text(decl.name@, fs@),
            _ => r == Err::<Artifact, SynthesisError>(SynthesisError::UnsupportedShape),
        },
{
    match &decl.shape {
        Shape::Named(fs) => {
            let mut builder_name = String::from_str(decl.name.as_str());
            builder_name.append("Builder");
            let source = render_source(decl.name.as_str(), fs);
            Ok(Artifact { builder_name, source })
        },
        _ => Err(SynthesisError::UnsupportedShape),
    }
}

} // verus!
