//! A description of an enum's declaration, as far as mirroring it needs:
//! the variants, their fields, and the paths that name the fields' types.

use vstd::prelude::*;
use vstd::string::*;

verus! {

/// One argument between the angle brackets of a path segment.
pub enum GenericArgument {
    /// A type, as `u8` in `Vec<u8>`.
    Type(Type),
    /// A lifetime, a constant, or a binding of an associated item.
    Other,
}

/// What follows the name in a path segment.
pub enum PathArguments {
    /// Nothing, as in `String`.
    Absent,
    /// Arguments in angle brackets, as in `Vec<u8>`.
    AngleBracketed(Vec<GenericArgument>),
    /// Arguments in round brackets, as in `Fn(u8) -> bool`.
    Parenthesized,
}

/// One segment of a path: a name and what follows it.
pub struct PathSegment {
    pub ident: String,
    pub arguments: PathArguments,
}

/// The type that a field is declared with.
pub enum Type {
    /// A path, as `std::vec::Vec<u8>`, segment by segment.
    Path(Vec<PathSegment>),
    /// Anything else: a reference, a tuple, an array, ...
    Other,
}

/// A field of a variant: its name, where it has one, and its type.
pub struct Field {
    pub ident: Option<String>,
    pub ty: Type,
}

/// A variant of an enum: its name and its fields in the order of declaration.
pub struct Variant {
    pub ident: String,
    pub fields: Vec<Field>,
}

/// What kind of item a declaration is.
pub enum Data {
    Enum(Vec<Variant>),
    Struct,
    Union,
}

/// The declaration handed to the derive: the item's name and its body.
pub struct DeriveInput {
    pub ident: String,
    pub data: Data,
}

/// Whether `s` can name a type, a field or a variant: it has a character,
/// and no dollar sign, which the flat names keep for their own use.
pub open spec fn is_name(s: Seq<char>) -> bool {
    s.len() > 0 && !s.contains('$')
}

impl PathSegment {
    /// Whether the segment has a name.
    pub open spec fn wf(self) -> bool {
        is_name(self.ident@)
    }
}

impl Type {
    /// Whether the type is one that a name can be made for: a path of at
    /// least one segment, each segment with a name.
    pub open spec fn wf(self) -> bool {
        self matches Type::Path(segments) && segments@.len() > 0 && forall|i: int|
            0 <= i < segments@.len() ==> (#[trigger] segments@[i]).wf()
    }
}

impl Field {
    /// Whether the field has a name and a type that a name can be made for.
    pub open spec fn wf(self) -> bool {
        self.ident matches Some(ident) && is_name(ident@) && self.ty.wf()
    }
}

impl Variant {
    /// Whether the variant has a name and every one of its fields is well formed.
    pub open spec fn wf(self) -> bool {
        is_name(self.ident@) && forall|i: int|
            0 <= i < self.fields@.len() ==> (#[trigger] self.fields@[i]).wf()
    }
}

/// The flat name of a well-formed type begins with the name of the last
/// segment of its path, so it has a character and does not begin with a
/// dollar sign.
pub proof fn lemma_name_of_well_formed_type(ty: Type)
    requires
        ty.wf(),
    ensures
        canonical_name(ty).len() > 0,
        canonical_name(ty).first() != '$',
{
    let segments = ty->Path_0;
    let last = segments@.last();
    assert(last.wf());
    assert(last.ident@.contains(last.ident@[0]));
    assert(canonical_name(ty)[0] == last.ident@[0]);
}

/// What the type arguments add to a segment's name: for each argument that
/// is a type, a dollar sign and that type's name.
pub open spec fn arguments_suffix(args: Seq<GenericArgument>) -> Seq<char>
    decreases args,
{
    if args.len() == 0 {
        Seq::<char>::empty()
    } else {
        arguments_suffix(args.drop_last()) + match args.last() {
            GenericArgument::Type(inner) => "$"@ + canonical_name(inner),
            GenericArgument::Other => Seq::<char>::empty(),
        }
    }
}

/// The name of a segment followed by the names of its type arguments.
pub open spec fn segment_name(segment: PathSegment) -> Seq<char>
    decreases segment,
{
    segment.ident@ + match segment.arguments {
        PathArguments::AngleBracketed(args) => arguments_suffix(args@),
        _ => Seq::<char>::empty(),
    }
}

/// The flat name of a type: that of its path's last segment, and the empty
/// name for a type that is no path.
pub open spec fn canonical_name(ty: Type) -> Seq<char>
    decreases ty,
{
    match ty {
        Type::Path(segments) => if segments@.len() == 0 {
            Seq::<char>::empty()
        } else {
            segment_name(segments@.last())
        },
        Type::Other => Seq::<char>::empty(),
    }
}

/// The flat name of the type `ty`: the name of the last segment of its
/// path, then, for each type among that segment's arguments, a dollar sign
/// and the argument's own flat name. A type that is no path has the empty name.
pub fn extract_type(ty: &Type) -> (name: String)
    ensures
        name@ == canonical_name(*ty),
        ty.wf() ==> name@.len() > 0,
    decreases ty,
{
    proof {
        if ty.wf() {
            lemma_name_of_well_formed_type(*ty);
        }
    }
    match ty {
        Type::Path(segments) => {
            let mut base_type = String::new();
            let mut i: usize = 0;
            while i < segments.len()
                invariant
                    i <= segments.len(),
                    *ty == Type::Path(*segments),
                    base_type@ == if i == 0 {
                        Seq::<char>::empty()
                    } else {
                        segment_name(segments@[i - 1])
                    },
                decreases segments.len() - i,
            {
                let segment = &segments[i];
                base_type = segment.ident.clone();
                if let PathArguments::AngleBracketed(args) = &segment.arguments {
                    let mut j: usize = 0;
                    assert(args@.take(0) =~= Seq::<GenericArgument>::empty());
                    assert(base_type@ =~= segment.ident@ + arguments_suffix(args@.take(0)));
                    while j < args.len()
                        invariant
                            j <= args.len(),
                            i < segments.len(),
                            *ty == Type::Path(*segments),
                            *segment == segments@[i as int],
                            segment.arguments == PathArguments::AngleBracketed(*args),
                            base_type@ == segment.ident@ + arguments_suffix(
                                args@.take(j as int),
                            ),
                        decreases args.len() - j,
                    {
                        assert(args@.take(j + 1).drop_last() =~= args@.take(j as int));
                        if let GenericArgument::Type(nested) = &args[j] {
                            proof {
                                // the nested type stands below `ty`
                                assert(decreases_to!(*ty => ty->Path_0));
                                assert(decreases_to!(*segments => segments@));
                                assert(decreases_to!(segments@ => segments@[i as int]));
                                assert(decreases_to!(*segment => segment.arguments));
                                assert(decreases_to!(
                                    segment.arguments => segment.arguments->AngleBracketed_0
                                ));
                                assert(decreases_to!(*args => args@));
                                assert(decreases_to!(args@ => args@[j as int]));
                                assert(decreases_to!(args@[j as int] => *nested));
                            }
                            let nested_type = extract_type(nested);
                            base_type.append("$");
                            base_type.append(nested_type.as_str());
                        }
                        j = j + 1;
                        assert(base_type@ =~= segment.ident@ + arguments_suffix(
                            args@.take(j as int),
                        ));
                    }
                    assert(args@.take(args.len() as int) =~= args@);
                } else {
                    assert(base_type@ =~= segment_name(*segment));
                }
                i = i + 1;
            }
            base_type
        },
        Type::Other => String::new(),
    }
}

} // verus!
