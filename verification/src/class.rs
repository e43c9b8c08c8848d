//! JVM type signatures: a parser from signature strings to a structured
//! descriptor, and a formatter back to conventional Java syntax.

use vstd::prelude::*;

verus! {

/// Enumeration of the possible Java types.
///
/// `Class` keeps the original signature slice untouched, leading `L` and
/// trailing `;` included; `Array` wraps one level of array dimensionality.
#[derive(Debug, Eq, PartialEq)]
pub enum JavaType<'a> {
    Boolean,
    Byte,
    Char,
    Double,
    Float,
    Int,
    Long,
    Short,
    Void,
    Class(&'a str),
    Array(Box<JavaType<'a>>),
}

/// The mathematical shape of a [`JavaType`]: the same tree, with the class
/// signature slice abstracted to its character sequence.
pub enum JavaTypeView {
    Boolean,
    Byte,
    Char,
    Double,
    Float,
    Int,
    Long,
    Short,
    Void,
    Class(Seq<char>),
    Array(Box<JavaTypeView>),
}

impl<'a> View for JavaType<'a> {
    type V = JavaTypeView;

    open spec fn view(&self) -> JavaTypeView
        decreases self,
    {
        match self {
            JavaType::Boolean => JavaTypeView::Boolean,
            JavaType::Byte => JavaTypeView::Byte,
            JavaType::Char => JavaTypeView::Char,
            JavaType::Double => JavaTypeView::Double,
            JavaType::Float => JavaTypeView::Float,
            JavaType::Int => JavaTypeView::Int,
            JavaType::Long => JavaTypeView::Long,
            JavaType::Short => JavaTypeView::Short,
            JavaType::Void => JavaTypeView::Void,
            JavaType::Class(s) => JavaTypeView::Class(s@),
            JavaType::Array(inner) => JavaTypeView::Array(Box::new((**inner)@)),
        }
    }
}

/// What `parse` returns on a signature with exactly one character.
///
/// Note: a lone `L` maps to `long` and a lone `J` is rejected, diverging
/// from the JVM convention in which `J` denotes `long` and `L` only
/// introduces a class signature.
pub open spec fn spec_parse_single(c: char) -> Option<JavaTypeView> {
    if c == 'B' {
        Some(JavaTypeView::Byte)
    } else if c == 'C' {
        Some(JavaTypeView::Char)
    } else if c == 'D' {
        Some(JavaTypeView::Double)
    } else if c == 'F' {
        Some(JavaTypeView::Float)
    } else if c == 'I' {
        Some(JavaTypeView::Int)
    } else if c == 'L' {
        Some(JavaTypeView::Long)
    } else if c == 'S' {
        Some(JavaTypeView::Short)
    } else if c == 'V' {
        Some(JavaTypeView::Void)
    } else if c == 'Z' {
        Some(JavaTypeView::Boolean)
    } else {
        None
    }
}

/// The signature grammar: empty input fails; one character is a primitive
/// code; a leading `[` wraps the rest in one array level; a leading `L`
/// with at least one more character is a class signature, kept whole.
pub open spec fn spec_parse(s: Seq<char>) -> Option<JavaTypeView>
    decreases s.len(),
{
    if s.len() == 0 {
        None
    } else if s.len() == 1 {
        spec_parse_single(s[0])
    } else if s[0] == '[' {
        match spec_parse(s.subrange(1, s.len() as int)) {
            Some(inner) => Some(JavaTypeView::Array(Box::new(inner))),
            None => None,
        }
    } else if s[0] == 'L' {
        Some(JavaTypeView::Class(s))
    } else {
        None
    }
}

/// The view of a parse result, for contracts over `Option<JavaType>`.
pub open spec fn parsed_view(r: Option<JavaType>) -> Option<JavaTypeView> {
    match r {
        Some(t) => Some(t@),
        None => None,
    }
}

/// One leading `L` removed, if the sequence starts with one.
pub open spec fn strip_leading_l(s: Seq<char>) -> Seq<char> {
    if s.len() > 0 && s[0] == 'L' {
        s.subrange(1, s.len() as int)
    } else {
        s
    }
}

/// One trailing `;` removed, if the sequence ends with one.
pub open spec fn strip_trailing_semicolon(s: Seq<char>) -> Seq<char> {
    if s.len() > 0 && s[s.len() - 1] == ';' {
        s.subrange(0, s.len() - 1)
    } else {
        s
    }
}

/// Every `/` replaced by `.`; other characters kept.
pub open spec fn slashes_to_dots(s: Seq<char>) -> Seq<char> {
    s.map_values(|c: char| if c == '/' { '.' } else { c })
}

/// How a class signature is displayed: one leading `L` and one trailing
/// `;` are stripped when present, and path separators become dots.
pub open spec fn spec_class_name(s: Seq<char>) -> Seq<char> {
    slashes_to_dots(strip_trailing_semicolon(strip_leading_l(s)))
}

/// The conventional Java rendering of a descriptor: primitives by their
/// lowercase keyword, arrays by a trailing `[]` per level, class
/// signatures by [`spec_class_name`].
pub open spec fn spec_format(t: JavaTypeView) -> Seq<char>
    decreases t,
{
    match t {
        JavaTypeView::Byte => "byte"@,
        JavaTypeView::Char => "char"@,
        JavaTypeView::Double => "double"@,
        JavaTypeView::Float => "float"@,
        JavaTypeView::Int => "int"@,
        JavaTypeView::Long => "long"@,
        JavaTypeView::Short => "short"@,
        JavaTypeView::Void => "void"@,
        JavaTypeView::Boolean => "boolean"@,
        JavaTypeView::Array(inner) => spec_format(*inner) + "[]"@,
        JavaTypeView::Class(s) => spec_class_name(s),
    }
}

impl<'a> JavaType<'a> {
    /// Convert a given type signature into a JavaType instance (if possible).
    /// None is returned if the conversion was not successful.
    pub fn parse(signature: &'a str) -> (r: Option<JavaType<'a>>)
        ensures
            parsed_view(r) == spec_parse(signature@),
        decreases signature@.len(),
    {
        let n = signature.unicode_len();
        if n == 0 {
            None
        } else if n == 1 {
            let c = signature.get_char(0);
            if c == 'B' {
                Some(JavaType::Byte)
            } else if c == 'C' {
                Some(JavaType::Char)
            } else if c == 'D' {
                Some(JavaType::Double)
            } else if c == 'F' {
                Some(JavaType::Float)
            } else if c == 'I' {
                Some(JavaType::Int)
            } else if c == 'L' {
                Some(JavaType::Long)
            } else if c == 'S' {
                Some(JavaType::Short)
            } else if c == 'V' {
                Some(JavaType::Void)
            } else if c == 'Z' {
                Some(JavaType::Boolean)
            } else {
                None
            }
        } else {
            let c = signature.get_char(0);
            if c == '[' {
                let local_type = signature.substring_char(1, n);
                match JavaType::parse(local_type) {
                    Some(result) => Some(JavaType::Array(Box::new(result))),
                    None => None,
                }
            } else if c == 'L' {
                Some(JavaType::Class(signature))
            } else {
                None
            }
        }
    }

    /// Converts the given Java type into a conventional human-readable
    /// representation.
    pub fn to_string(java_type: &JavaType) -> (r: String)
        ensures
            r@ == spec_format(java_type@),
        decreases *java_type,
    {
        match java_type {
            JavaType::Byte => String::from_str("byte"),
            JavaType::Char => String::from_str("char"),
            JavaType::Double => String::from_str("double"),
            JavaType::Float => String::from_str("float"),
            JavaType::Int => String::from_str("int"),
            JavaType::Long => String::from_str("long"),
            JavaType::Short => String::from_str("short"),
            JavaType::Void => String::from_str("void"),
            JavaType::Boolean => String::from_str("boolean"),
            JavaType::Array(inner_type) => JavaType::to_string(&**inner_type).concat("[]"),
            JavaType::Class(cls) => class_display_name(cls),
        }
    }
}

/// The displayed name of a class signature: strips one leading `L` and one
/// trailing `;` when present, and turns each `/` into `.`.
fn class_display_name(cls: &str) -> (r: String)
    ensures
        r@ == spec_class_name(cls@),
{
    let n = cls.unicode_len();
    let start: usize = if n > 0 && cls.get_char(0) == 'L' {
        1
    } else {
        0
    };
    let end: usize = if n > start && cls.get_char(n - 1) == ';' {
        n - 1
    } else {
        n
    };
    proof {
        assert(strip_leading_l(cls@) =~= cls@.subrange(start as int, n as int));
        assert(strip_trailing_semicolon(cls@.subrange(start as int, n as int)) =~= cls@.subrange(
            start as int,
            end as int,
        ));
        reveal_strlit(".");
    }
    let mut r = String::new();
    let mut i: usize = start;
    while i < end
        invariant
            start <= i <= end <= n,
            n == cls@.len(),
            "."@ =~= seq!['.'],
            r@ =~= slashes_to_dots(cls@.subrange(start as int, i as int)),
        decreases end - i,
    {
        let c = cls.get_char(i);
        if c == '/' {
            r.append(".");
        } else {
            let piece = cls.substring_char(i, i + 1);
            r.append(piece);
        }
        proof {
            assert(cls@.subrange(start as int, i as int + 1) =~= cls@.subrange(
                start as int,
                i as int,
            ).push(cls@[i as int]));
            assert(slashes_to_dots(cls@.subrange(start as int, i as int + 1)) =~= slashes_to_dots(
                cls@.subrange(start as int, i as int),
            ).push(if cls@[i as int] == '/' { '.' } else { cls@[i as int] }));
        }
        i = i + 1;
    }
    r
}

/// The single-character codes that parse to a primitive type.
pub open spec fn primitive_code(c: char) -> bool {
    c == 'B' || c == 'C' || c == 'D' || c == 'F' || c == 'I' || c == 'L' || c == 'S' || c == 'V'
        || c == 'Z'
}

/// The Java keyword displayed for a primitive code.
pub open spec fn primitive_name(c: char) -> Seq<char> {
    if c == 'B' {
        "byte"@
    } else if c == 'C' {
        "char"@
    } else if c == 'D' {
        "double"@
    } else if c == 'F' {
        "float"@
    } else if c == 'I' {
        "int"@
    } else if c == 'L' {
        "long"@
    } else if c == 'S' {
        "short"@
    } else if c == 'V' {
        "void"@
    } else if c == 'Z' {
        "boolean"@
    } else {
        Seq::empty()
    }
}

/// A signature of `depth` leading `[` characters around one primitive code.
pub open spec fn nested_array_signature(c: char, depth: nat) -> Seq<char>
    decreases depth,
{
    if depth == 0 {
        seq![c]
    } else {
        seq!['['] + nested_array_signature(c, (depth - 1) as nat)
    }
}

/// `depth` copies of the literal array suffix `[]`.
pub open spec fn bracket_pairs(depth: nat) -> Seq<char>
    decreases depth,
{
    if depth == 0 {
        Seq::empty()
    } else {
        bracket_pairs((depth - 1) as nat) + "[]"@
    }
}

proof fn lemma_nested_array_signature_len(c: char, depth: nat)
    ensures
        nested_array_signature(c, depth).len() == depth + 1,
    decreases depth,
{
    if depth > 0 {
        lemma_nested_array_signature_len(c, (depth - 1) as nat);
    }
}

/// Law: a signature built purely from `[` nesting around one primitive code
/// always parses, whatever the depth, and formatting the parsed descriptor
/// yields the primitive's Java keyword followed by one `[]` per nesting
/// level.
pub proof fn lemma_nested_array_round_trip(c: char, depth: nat)
    requires
        primitive_code(c),
    ensures
        (spec_parse(nested_array_signature(c, depth)) matches Some(t) && spec_format(t)
            == primitive_name(c) + bracket_pairs(depth)),
    decreases depth,
{
    lemma_nested_array_signature_len(c, depth);
    if depth == 0 {
        assert(spec_format(spec_parse(nested_array_signature(c, 0))->Some_0) =~= primitive_name(c)
            + bracket_pairs(0));
    } else {
        lemma_nested_array_round_trip(c, (depth - 1) as nat);
        let s = nested_array_signature(c, depth);
        assert(s.subrange(1, s.len() as int) =~= nested_array_signature(c, (depth - 1) as nat));
        let prev = spec_parse(nested_array_signature(c, (depth - 1) as nat))->Some_0;
        assert((spec_format(prev) + "[]"@) =~= primitive_name(c) + bracket_pairs(depth));
    }
}

/// Law: formatting is deterministic — structurally equal descriptors are
/// rendered as identical character sequences.
pub proof fn lemma_format_deterministic(a: JavaTypeView, b: JavaTypeView)
    requires
        a == b,
    ensures
        spec_format(a) == spec_format(b),
{
}

/// Represents a local reference to a Java class inside a running virtual
/// machine: an opaque token that this crate stores and never inspects.
pub struct ClassId {
    pub native_id: usize,
}

/// A class identity paired with its parsed type signature.
pub struct Class<'a> {
    pub id: ClassId,
    pub signature: JavaType<'a>,
}

impl<'a> Class<'a> {
    /// Constructs a new Class instance. No parsing happens here: the caller
    /// supplies an already parsed signature.
    pub fn new(id: ClassId, signature: JavaType<'a>) -> (r: Class<'a>)
        ensures
            r.id == id,
            r.signature == signature,
    {
        Class { id, signature }
    }
}

} // verus!
