//! Element kinds and the format tags that select them.
//!
//! A schema descriptor carries its logical type as a short byte string, the
//! format tag of the binary interchange standard the engine speaks.  The
//! importer recognises three of them: `i` (32-bit signed integer), `tdD`
//! (date held as a 32-bit day number) and `g` (64-bit float), plus `+s` for
//! a struct of child columns.  Every other tag is unsupported.

use vstd::prelude::*;

verus! {

/// A primitive logical element type the importer can decode.
#[derive(Clone, Copy, Debug, PartialEq, Eq, Structural)]
pub enum ElementKind {
    /// 32-bit signed integer.
    Int32,
    /// Calendar date held as a 32-bit signed day number.
    Date32,
    /// 64-bit float, handled by its raw bit pattern.
    Float64,
}

/// What a format tag denotes: a primitive column or a struct of columns.
#[derive(Clone, Copy, Debug, PartialEq, Eq, Structural)]
pub enum FormatKind {
    Primitive(ElementKind),
    Struct,
}

impl ElementKind {
    /// True of the kinds whose cells are 32-bit integers.
    pub open spec fn is_int_like(self) -> bool {
        self == ElementKind::Int32 || self == ElementKind::Date32
    }
}

/// The meaning of a format tag, or `None` where the tag is not recognised.
pub open spec fn spec_parse_format(tag: Seq<u8>) -> Option<FormatKind> {
    if tag =~= seq![105u8] {
        // "i"
        Some(FormatKind::Primitive(ElementKind::Int32))
    } else if tag =~= seq![116u8, 100u8, 68u8] {
        // "tdD"
        Some(FormatKind::Primitive(ElementKind::Date32))
    } else if tag =~= seq![103u8] {
        // "g"
        Some(FormatKind::Primitive(ElementKind::Float64))
    } else if tag =~= seq![43u8, 115u8] {
        // "+s"
        Some(FormatKind::Struct)
    } else {
        None
    }
}

/// Decides which element kind, if any, a format tag selects.
pub fn parse_format(tag: &Vec<u8>) -> (r: Option<FormatKind>)
    ensures
        r == spec_parse_format(tag@),
{
    if tag.len() == 1 && tag[0] == 105u8 {
        assert(tag@ =~= seq![105u8]);
        Some(FormatKind::Primitive(ElementKind::Int32))
    } else if tag.len() == 3 && tag[0] == 116u8 && tag[1] == 100u8 && tag[2] == 68u8 {
        assert(tag@ =~= seq![116u8, 100u8, 68u8]);
        Some(FormatKind::Primitive(ElementKind::Date32))
    } else if tag.len() == 1 && tag[0] == 103u8 {
        assert(tag@ =~= seq![103u8]);
        Some(FormatKind::Primitive(ElementKind::Float64))
    } else if tag.len() == 2 && tag[0] == 43u8 && tag[1] == 115u8 {
        assert(tag@ =~= seq![43u8, 115u8]);
        Some(FormatKind::Struct)
    } else {
        assert(spec_parse_format(tag@) is None) by {
            assert(tag@ =~= seq![105u8] ==> tag@.len() == 1 && tag@[0] == 105u8);
            assert(tag@ =~= seq![116u8, 100u8, 68u8] ==> tag@.len() == 3 && tag@[0] == 116u8
                && tag@[1] == 100u8 && tag@[2] == 68u8);
            assert(tag@ =~= seq![103u8] ==> tag@.len() == 1 && tag@[0] == 103u8);
            assert(tag@ =~= seq![43u8, 115u8] ==> tag@.len() == 2 && tag@[0] == 43u8
                && tag@[1] == 115u8);
        }
        None
    }
}

} // verus!
