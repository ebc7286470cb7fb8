//! `Result<T, E>` as it crosses the bridge: its name, its C representation and its
//! Swift source.
use syn::Path;
use vstd::prelude::*;

use crate::bridged_type;
use crate::bridged_type::{
    Aspect, BridgeableType, CDefinition, CFfiStruct, NamedType, TypePosition,
};
use crate::declarations::{HostLang, TypeDeclarations};
use crate::text;
use crate::tokens;
use crate::SWIFT_BRIDGE_PREFIX;

verus! {

/// Rust: `Result<T, E>`
/// Swift: `RustResult<T, E>`
///
/// Swift's own `Result` is not used: it wants the error to implement the `Error`
/// protocol, and a class that does so can not inherit from the class for mutable
/// references, by which mutable methods are kept away from immutable references.
///
/// A result crosses the bridge in one of three ways:
///  - as a pointer to the error, null for `Ok`, where `Ok` holds no data and the
///    error is passed via a pointer;
///  - as a flag and a pointer, where one side is passed via a pointer and the
///    other one is so too or holds no data;
///  - else as a tagged union of its own.
#[derive(Debug)]
pub struct BuiltInResult<O: BridgeableType + ?Sized, E: BridgeableType + ?Sized> {
    pub ok_ty: Box<O>,
    pub err_ty: Box<E>,
}

/// The names of the two types in `Result < A , B >`: what stands before and behind
/// the last comma behind which the brackets balance, or the last comma where there is
/// none such, without the white space around it.
pub open spec fn ok_and_err_names(string: Seq<char>) -> Option<(Seq<char>, Seq<char>)> {
    let inner = text::without_suffix(text::without_prefix(string, "Result < "@), " >"@);
    match text::split_outside(inner, ',') {
        Some((ok, err)) => Some((text::trimmed(ok), text::trimmed(err))),
        None => None,
    }
}

/// The names of the two types in `Result < A , B >`.
pub fn split_ok_and_err<'a>(string: &'a str) -> (r: Option<(&'a str, &'a str)>)
    ensures
        match (r, ok_and_err_names(string@)) {
            (Some((ok, err)), Some((ok_name, err_name))) => ok@ == ok_name && err@ == err_name,
            (None, None) => true,
            _ => false,
        },
{
    // A , B >
    let trimmed = text::strip_prefix(string, "Result < ");
    // A , B
    let trimmed = text::strip_suffix(trimmed, " >");
    // [A, B]
    match text::rsplit_outside(trimmed, ',') {
        Some((ok, err)) => Some((text::trim(ok), text::trim(err))),
        None => None,
    }
}

impl<T: NamedType> BuiltInResult<T, T> {
    /// The two types in `Result < A , B >`.
    pub open spec fn spec_from_str_tokens(
        string: Seq<char>,
        types: &TypeDeclarations,
    ) -> Option<(T::V, T::V)> {
        match ok_and_err_names(string) {
            Some((ok, err)) => match (
                T::spec_new_with_str(ok, types),
                T::spec_new_with_str(err, types),
            ) {
                (Some(ok), Some(err)) => Some((ok, err)),
                _ => None,
            },
            None => None,
        }
    }

    /// Go from `Result < A , B >` to a `BuiltInResult`.
    pub fn from_str_tokens(string: &str, types: &TypeDeclarations) -> (r: Option<Self>)
        ensures
            match (r, Self::spec_from_str_tokens(string@, types)) {
                (Some(result), Some((ok, err))) => result.ok_ty@ == ok && result.err_ty@ == err,
                (None, None) => true,
                _ => false,
            },
    {
        let (ok, err) = match split_ok_and_err(string) {
            Some(ok_and_err) => ok_and_err,
            None => return None,
        };
        let ok = match T::new_with_str(ok, types) {
            Some(ok) => ok,
            None => return None,
        };
        let err = match T::new_with_str(err, types) {
            Some(err) => err,
            None => return None,
        };
        Some(BuiltInResult { ok_ty: Box::new(ok), err_ty: Box::new(err) })
    }
}

impl<O: BridgeableType + ?Sized, E: BridgeableType + ?Sized> BuiltInResult<O, E> {
    /// Both sides are passed via pointers, or one is and the other one has a single
    /// value only: neither needs a type of its own.
    pub open spec fn spec_is_custom_result_type(&self) -> bool {
        let ok_ptr = self.ok_ty.spec_is_passed_via_pointer();
        let err_ptr = self.err_ty.spec_is_passed_via_pointer();
        !{
            ||| ok_ptr && err_ptr
            ||| self.ok_ty.spec_only_encoding() is Some && err_ptr
            ||| ok_ptr && self.err_ty.spec_only_encoding() is Some
        }
    }

    /// Whether the result crosses the bridge in a tagged union of its own.
    pub fn is_custom_result_type(&self) -> (r: bool)
        ensures
            r == self.spec_is_custom_result_type(),
    {
        // ResultPtrAndPtr
        if self.ok_ty.is_passed_via_pointer() && self.err_ty.is_passed_via_pointer() {
            return false;
        }

        // ResultVoidAndPtr or ResultPtrAndVoid
        if (self.ok_ty.only_encoding().is_some() && self.err_ty.is_passed_via_pointer()) || (
        self.ok_ty.is_passed_via_pointer() && self.err_ty.only_encoding().is_some()) {
            return false;
        }
        true
    }

    /// Both types have names, of which that of the tagged union is made.
    pub open spec fn is_named(&self, types: &TypeDeclarations) -> bool {
        self.ok_ty.has(Aspect::Name, types) && self.err_ty.has(Aspect::Name, types)
    }

    /// What stands in a tagged union for `Ok` and `Err` has this aspect. There is
    /// nothing for `Ok` where it takes up no memory, and `Err` always takes up some.
    pub open spec fn payload_has(&self, aspect: Aspect, types: &TypeDeclarations) -> bool {
        &&& !self.err_ty.spec_can_be_encoded_with_zero_bytes()
        &&& self.ok_ty.spec_can_be_encoded_with_zero_bytes() || self.ok_ty.has(aspect, types)
        &&& self.err_ty.has(aspect, types)
    }

    /// Whether the result has this aspect.
    ///
    /// Where it takes a Rust identifier, the names of the two types must be made of
    /// ASCII and Latin-1 letters, digits and underscores: a union with another name has
    /// no Rust type, no Rust definition and no way from a Rust value over the bridge.
    pub open spec fn has(&self, aspect: Aspect, types: &TypeDeclarations) -> bool {
        let both = self.ok_ty.has(aspect, types) && self.err_ty.has(aspect, types);
        let custom = self.spec_is_custom_result_type();
        let zero_bytes = self.ok_ty.spec_can_be_encoded_with_zero_bytes();
        match aspect {
            Aspect::Name => false,
            Aspect::CType => if custom {
                self.is_named(types)
            } else {
                zero_bytes ==> self.err_ty.has(aspect, types)
            },
            Aspect::FfiType => if custom {
                self.is_named(types) && tokens::is_ident(self.spec_custom_c_struct_name(types))
            } else {
                zero_bytes ==> self.err_ty.has(aspect, types)
            },
            Aspect::CDefinition => custom ==> {
                &&& both
                &&& self.is_named(types)
                &&& self.payload_has(Aspect::CType, types)
            },
            Aspect::RustDefinitions => custom ==> {
                &&& both
                &&& self.is_named(types)
                &&& tokens::is_ident(self.spec_custom_c_struct_name(types))
                &&& self.payload_has(Aspect::FfiType, types)
            },
            Aspect::SwiftType(type_pos) => match type_pos {
                TypePosition::FnReturn(_) => self.ok_ty.has(aspect, types),
                TypePosition::FnArg(_, _) | TypePosition::SharedStructField => both,
                TypePosition::SwiftCallsRustAsyncOnCompleteReturnTy => {
                    &&& !self.err_ty.spec_can_be_encoded_with_zero_bytes()
                    &&& custom ==> self.is_named(types)
                },
                TypePosition::ThrowingInit(_) => false,
            },
            Aspect::RustToFfi => {
                &&& both
                &&& custom ==> {
                    &&& !self.err_ty.spec_can_be_encoded_with_zero_bytes()
                    &&& self.is_named(types)
                    &&& tokens::is_ident(self.spec_custom_c_struct_name(types))
                }
            },
            Aspect::FfiToSwift(type_pos) => if custom {
                &&& self.is_named(types)
                &&& self.payload_has(aspect, types)
                &&& match type_pos {
                    TypePosition::FnReturn(_) => true,
                    TypePosition::ThrowingInit(lang) => lang == HostLang::Rust,
                    _ => false,
                }
            } else if self.ok_ty.spec_only_encoding() is Some {
                self.err_ty.has(aspect, types)
            } else {
                both
            },
            Aspect::SwiftToFfi(_) => both,
            Aspect::FfiResultToRust => false,
        }
    }

    /// Whether the result can be handed to the callback of an `async` function.
    pub open spec fn has_callback(&self, type_pos: TypePosition, types: &TypeDeclarations) -> bool {
        let zero_bytes = self.ok_ty.spec_can_be_encoded_with_zero_bytes();
        if self.spec_is_custom_result_type() {
            &&& self.is_named(types)
            &&& zero_bytes || self.ok_ty.has(Aspect::FfiToSwift(type_pos), types)
            &&& self.err_ty.has(Aspect::FfiToSwift(type_pos), types)
        } else {
            &&& self.ok_ty.has(Aspect::SwiftType(type_pos), types)
            &&& self.err_ty.has(Aspect::SwiftType(type_pos), types)
        }
    }

    fn names_are_known(&self, types: &TypeDeclarations) -> (r: bool)
        ensures
            r == self.is_named(types),
    {
        self.ok_ty.has_aspect(Aspect::Name, types) && self.err_ty.has_aspect(Aspect::Name, types)
    }

    fn name_is_identifier(&self, types: &TypeDeclarations) -> (r: bool)
        ensures
            r == (self.is_named(types) && tokens::is_ident(self.spec_custom_c_struct_name(types))),
    {
        self.names_are_known(types) && tokens::is_identifier(&self.custom_c_struct_name(types))
    }

    fn payload_has_aspect(&self, aspect: Aspect, types: &TypeDeclarations) -> (r: bool)
        ensures
            r == self.payload_has(aspect, types),
    {
        !self.err_ty.can_be_encoded_with_zero_bytes() && (
        self.ok_ty.can_be_encoded_with_zero_bytes() || self.ok_ty.has_aspect(aspect, types))
            && self.err_ty.has_aspect(aspect, types)
    }

    /// Whether the result has this aspect.
    pub fn has_aspect(&self, aspect: Aspect, types: &TypeDeclarations) -> (r: bool)
        ensures
            r == self.has(aspect, types),
    {
        let ok = self.ok_ty.has_aspect(aspect, types);
        let err = self.err_ty.has_aspect(aspect, types);
        let custom = self.is_custom_result_type();
        let zero_bytes = self.ok_ty.can_be_encoded_with_zero_bytes();
        let err_zero_bytes = self.err_ty.can_be_encoded_with_zero_bytes();
        match aspect {
            Aspect::Name => false,
            Aspect::CType => if custom {
                self.names_are_known(types)
            } else {
                !zero_bytes || err
            },
            Aspect::FfiType => if custom {
                self.name_is_identifier(types)
            } else {
                !zero_bytes || err
            },
            Aspect::CDefinition => !custom || (ok && err && self.names_are_known(types)
                && self.payload_has_aspect(Aspect::CType, types)),
            Aspect::RustDefinitions => !custom || (ok && err && self.name_is_identifier(types)
                && self.payload_has_aspect(Aspect::FfiType, types)),
            Aspect::SwiftType(type_pos) => match type_pos {
                TypePosition::FnReturn(_) => ok,
                TypePosition::FnArg(_, _) | TypePosition::SharedStructField => ok && err,
                TypePosition::SwiftCallsRustAsyncOnCompleteReturnTy => {
                    !err_zero_bytes && (!custom || self.names_are_known(types))
                },
                TypePosition::ThrowingInit(_) => false,
            },
            Aspect::RustToFfi => ok && err && (!custom || (!err_zero_bytes
                && self.name_is_identifier(types))),
            Aspect::FfiToSwift(type_pos) => if custom {
                let in_place = match type_pos {
                    TypePosition::FnReturn(_) => true,
                    TypePosition::ThrowingInit(lang) => lang.is_rust(),
                    _ => false,
                };
                in_place && self.names_are_known(types) && self.payload_has_aspect(aspect, types)
            } else if self.ok_ty.only_encoding().is_some() {
                err
            } else {
                ok && err
            },
            Aspect::SwiftToFfi(_) => ok && err,
            Aspect::FfiResultToRust => false,
        }
    }

    /// Whether the result can be handed to the callback of an `async` function.
    pub fn can_be_handed_to_callback(
        &self,
        type_pos: TypePosition,
        types: &TypeDeclarations,
    ) -> (r: bool)
        ensures
            r == self.has_callback(type_pos, types),
    {
        if self.is_custom_result_type() {
            self.names_are_known(types) && (self.ok_ty.can_be_encoded_with_zero_bytes()
                || self.ok_ty.has_aspect(Aspect::FfiToSwift(type_pos), types))
                && self.err_ty.has_aspect(Aspect::FfiToSwift(type_pos), types)
        } else {
            self.ok_ty.has_aspect(Aspect::SwiftType(type_pos), types)
                && self.err_ty.has_aspect(Aspect::SwiftType(type_pos), types)
        }
    }

    /// The name of the tagged union, in Rust.
    pub open spec fn spec_custom_c_struct_name(&self, types: &TypeDeclarations) -> Seq<char> {
        "Result"@ + self.ok_ty.spec_to_alpha_numeric_underscore_name(types) + "And"@
            + self.err_ty.spec_to_alpha_numeric_underscore_name(types)
    }

    /// The name of the tagged union, in Rust.
    pub fn custom_c_struct_name(&self, types: &TypeDeclarations) -> (r: String)
        requires
            self.is_named(types),
        ensures
            r@ == self.spec_custom_c_struct_name(types),
    {
        let mut r = "Result".to_string();
        r.append(&self.ok_ty.to_alpha_numeric_underscore_name(types));
        r.append("And");
        r.append(&self.err_ty.to_alpha_numeric_underscore_name(types));
        r
    }

    /// The name of the tagged union, in C and Swift.
    pub open spec fn c_name(&self, types: &TypeDeclarations) -> Seq<char> {
        SWIFT_BRIDGE_PREFIX@ + "$"@ + self.spec_custom_c_struct_name(types)
    }

    /// The name of the tagged union, in C and Swift.
    fn prefixed_c_struct_name(&self, types: &TypeDeclarations) -> (r: String)
        requires
            self.is_named(types),
        ensures
            r@ == self.c_name(types),
    {
        let mut r = SWIFT_BRIDGE_PREFIX.to_string();
        r.append("$");
        r.append(&self.custom_c_struct_name(types));
        r
    }

    /// The tag of the union for `Ok`.
    pub open spec fn spec_c_ok_tag_name(&self, types: &TypeDeclarations) -> Seq<char> {
        self.c_name(types) + "$ResultOk"@
    }

    /// The tag of the union for `Ok`.
    pub fn c_ok_tag_name(&self, types: &TypeDeclarations) -> (r: String)
        requires
            self.is_named(types),
        ensures
            r@ == self.spec_c_ok_tag_name(types),
    {
        let mut r = self.prefixed_c_struct_name(types);
        r.append("$ResultOk");
        r
    }

    /// The tag of the union for `Err`.
    pub open spec fn spec_c_err_tag_name(&self, types: &TypeDeclarations) -> Seq<char> {
        self.c_name(types) + "$ResultErr"@
    }

    /// The tag of the union for `Err`.
    pub fn c_err_tag_name(&self, types: &TypeDeclarations) -> (r: String)
        requires
            self.is_named(types),
        ensures
            r@ == self.spec_c_err_tag_name(types),
    {
        let mut r = self.prefixed_c_struct_name(types);
        r.append("$ResultErr");
        r
    }

    /// The result as C source.
    pub open spec fn spec_to_c(&self, types: &TypeDeclarations) -> Seq<char> {
        if self.spec_is_custom_result_type() {
            "struct "@ + self.c_name(types)
        } else if self.ok_ty.spec_can_be_encoded_with_zero_bytes() {
            self.err_ty.spec_to_c_type(types)
        } else {
            "struct __private__ResultPtrAndPtr"@
        }
    }

    /// The result as C source.
    pub fn to_c(&self, types: &TypeDeclarations) -> (r: String)
        requires
            self.has(Aspect::CType, types),
        ensures
            r@ == self.spec_to_c(types),
    {
        if self.is_custom_result_type() {
            let mut r = "struct ".to_string();
            r.append(&self.prefixed_c_struct_name(types));
            return r;
        }
        if self.ok_ty.can_be_encoded_with_zero_bytes() {
            self.err_ty.to_c_type(types)
        } else {
            "struct __private__ResultPtrAndPtr".to_string()
        }
    }

    /// The tagged union in C: the enum of its tags, the union of what it can hold,
    /// and the struct of both.
    pub open spec fn c_definition_text(&self, types: &TypeDeclarations) -> Seq<char> {
        let name = self.c_name(types);
        let tag = name + "$Tag"@;
        let payload = name + "$Fields"@;
        let ok_field = if self.ok_ty.spec_can_be_encoded_with_zero_bytes() {
            ""@
        } else {
            self.ok_ty.spec_to_c_type(types) + " ok; "@
        };
        "typedef enum "@ + tag + " {"@ + self.spec_c_ok_tag_name(types) + ", "@
            + self.spec_c_err_tag_name(types) + "} "@ + tag + ";\nunion "@ + payload + " {"@
            + ok_field + self.err_ty.spec_to_c_type(types) + " err;};\ntypedef struct "@ + name
            + "{"@ + tag + " tag; union "@ + payload + " payload;} "@ + name + ";"@
    }

    /// The definition of the tagged union in C, and those that it needs.
    pub open spec fn spec_generate_custom_c_ffi_types(&self, types: &TypeDeclarations) -> Option<
        CDefinition,
    > {
        if self.spec_is_custom_result_type() {
            let ok = match self.ok_ty.spec_generate_custom_c_ffi_types(types) {
                Some(definition) => seq![definition],
                None => Seq::empty(),
            };
            let err = match self.err_ty.spec_generate_custom_c_ffi_types(types) {
                Some(definition) => seq![definition],
                None => Seq::empty(),
            };
            Some(CDefinition { text: self.c_definition_text(types), fields: ok + err })
        } else {
            None
        }
    }

    /// The definition of the tagged union in C, where the result crosses the bridge
    /// in one.
    pub fn generate_custom_c_ffi_types(&self, types: &TypeDeclarations) -> (r: Option<CFfiStruct>)
        requires
            self.has(Aspect::CDefinition, types),
        ensures
            match (r, self.spec_generate_custom_c_ffi_types(types)) {
                (Some(c), Some(definition)) => bridged_type::c_definition(c) == definition,
                (None, None) => true,
                _ => false,
            },
    {
        if !self.is_custom_result_type() {
            return None;
        }
        let name = self.prefixed_c_struct_name(types);
        let mut tag = name.clone();
        tag.append("$Tag");
        let mut payload = name.clone();
        payload.append("$Fields");
        let ok_field = if self.ok_ty.can_be_encoded_with_zero_bytes() {
            "".to_string()
        } else {
            let mut field = self.ok_ty.to_c_type(types);
            field.append(" ok; ");
            field
        };
        let err_type = self.err_ty.to_c_type(types);
        let mut c = "typedef enum ".to_string();
        c.append(&tag);
        c.append(" {");
        c.append(&self.c_ok_tag_name(types));
        c.append(", ");
        c.append(&self.c_err_tag_name(types));
        c.append("} ");
        c.append(&tag);
        c.append(";\nunion ");
        c.append(&payload);
        c.append(" {");
        c.append(&ok_field);
        c.append(&err_type);
        c.append(" err;};\ntypedef struct ");
        c.append(&name);
        c.append("{");
        c.append(&tag);
        c.append(" tag; union ");
        c.append(&payload);
        c.append(" payload;} ");
        c.append(&name);
        c.append(";");

        let mut fields: Vec<CFfiStruct> = Vec::new();
        if let Some(ok) = self.ok_ty.generate_custom_c_ffi_types(types) {
            fields.push(ok);
        }
        if let Some(err) = self.err_ty.generate_custom_c_ffi_types(types) {
            fields.push(err);
        }
        let r = CFfiStruct { c_ffi_type: c, fields };
        assert(bridged_type::c_definition(r).fields
            =~= self.spec_generate_custom_c_ffi_types(types)->0.fields);
        Some(r)
    }

    /// The result as Swift source.
    pub open spec fn spec_to_swift_type(
        &self,
        type_pos: TypePosition,
        types: &TypeDeclarations,
        swift_bridge_path: &Path,
    ) -> Seq<char>
        recommends
            self.has(Aspect::SwiftType(type_pos), types),
    {
        let ok = self.ok_ty.spec_to_swift_type(type_pos, types, swift_bridge_path);
        let err = self.err_ty.spec_to_swift_type(type_pos, types, swift_bridge_path);
        match type_pos {
            TypePosition::FnReturn(_) => ok,
            TypePosition::FnArg(_, _) | TypePosition::SharedStructField => {
                "RustResult<"@ + ok + ", "@ + err + ">"@
            },
            TypePosition::SwiftCallsRustAsyncOnCompleteReturnTy => {
                if self.spec_is_custom_result_type() {
                    self.c_name(types)
                } else if self.ok_ty.spec_can_be_encoded_with_zero_bytes() {
                    "UnsafeMutableRawPointer?"@
                } else {
                    "__private__ResultPtrAndPtr"@
                }
            },
            TypePosition::ThrowingInit(_) => arbitrary(),
        }
    }

    /// The result as Swift source. A function that returns a result throws the
    /// error, so there it is the type for `Ok`.
    pub fn to_swift_type(
        &self,
        type_pos: TypePosition,
        types: &TypeDeclarations,
        swift_bridge_path: &Path,
    ) -> (r: String)
        requires
            self.has(Aspect::SwiftType(type_pos), types),
        ensures
            r@ == self.spec_to_swift_type(type_pos, types, swift_bridge_path),
    {
        match type_pos {
            TypePosition::FnReturn(_) => {
                self.ok_ty.to_swift_type(type_pos, types, swift_bridge_path)
            },
            TypePosition::FnArg(_, _) | TypePosition::SharedStructField => {
                let mut r = "RustResult<".to_string();
                r.append(&self.ok_ty.to_swift_type(type_pos, types, swift_bridge_path));
                r.append(", ");
                r.append(&self.err_ty.to_swift_type(type_pos, types, swift_bridge_path));
                r.append(">");
                r
            },
            TypePosition::SwiftCallsRustAsyncOnCompleteReturnTy => {
                if self.is_custom_result_type() {
                    return self.prefixed_c_struct_name(types);
                }
                if self.ok_ty.can_be_encoded_with_zero_bytes() {
                    return "UnsafeMutableRawPointer?".to_string();
                }
                "__private__ResultPtrAndPtr".to_string()
            },
            TypePosition::ThrowingInit(_) => {
                assert(false);
                String::new()
            },
        }
    }

    /// Swift source that takes a tagged union apart.
    pub open spec fn union_to_swift_value(
        &self,
        expression: Seq<char>,
        type_pos: TypePosition,
        types: &TypeDeclarations,
        swift_bridge_path: &Path,
    ) -> Seq<char> {
        let ok = if self.ok_ty.spec_can_be_encoded_with_zero_bytes() {
            ""@
        } else {
            " "@ + self.ok_ty.spec_convert_ffi_expression_to_swift_type(
                "val.payload.ok"@,
                type_pos,
                types,
                swift_bridge_path,
            )
        };
        let err = self.err_ty.spec_convert_ffi_expression_to_swift_type(
            "val.payload.err"@,
            type_pos,
            types,
            swift_bridge_path,
        );
        let ok_tag = self.spec_c_ok_tag_name(types);
        let err_tag = self.spec_c_err_tag_name(types);
        match type_pos {
            TypePosition::FnReturn(_) => "try { let val = "@ + expression
                + "; switch val.tag { case "@ + ok_tag + ": return"@ + ok + " case "@ + err_tag
                + ": throw "@ + err + " default: fatalError() } }()"@,
            TypePosition::ThrowingInit(_) => "let val = "@ + expression + "; if val.tag == "@
                + ok_tag + " { self.init(ptr: val.payload.ok) } else { throw "@ + err + " }"@,
            _ => arbitrary(),
        }
    }

    /// Swift source that takes a pointer to the error apart, which is nil for `Ok`.
    pub open spec fn error_pointer_to_swift_value(
        &self,
        only_ok: Seq<char>,
        expression: Seq<char>,
        type_pos: TypePosition,
        types: &TypeDeclarations,
        swift_bridge_path: &Path,
    ) -> Seq<char> {
        let ok = if self.ok_ty.spec_is_null() {
            ""@
        } else {
            " "@ + only_ok
        };
        let err = self.err_ty.spec_convert_ffi_expression_to_swift_type(
            "val!"@,
            type_pos,
            types,
            swift_bridge_path,
        );
        "try { let val = "@ + expression + "; if val != nil { throw "@ + err
            + " } else { return"@ + ok + " } }()"@
    }

    /// Swift source that takes a flag and a pointer apart.
    pub open spec fn flag_and_pointer_to_swift_value(
        &self,
        expression: Seq<char>,
        type_pos: TypePosition,
        types: &TypeDeclarations,
        swift_bridge_path: &Path,
    ) -> Seq<char> {
        let ok = self.ok_ty.spec_convert_ffi_expression_to_swift_type(
            "val.ok_or_err!"@,
            type_pos,
            types,
            swift_bridge_path,
        );
        let err = self.err_ty.spec_convert_ffi_expression_to_swift_type(
            "val.ok_or_err!"@,
            type_pos,
            types,
            swift_bridge_path,
        );
        "try { let val = "@ + expression + "; if val.is_ok { return "@ + ok
            + " } else { throw "@ + err + " } }()"@
    }

    /// Swift source that gives the value of `Ok` and throws that of `Err`.
    pub open spec fn spec_convert_ffi_value_to_swift_value(
        &self,
        expression: Seq<char>,
        type_pos: TypePosition,
        types: &TypeDeclarations,
        swift_bridge_path: &Path,
    ) -> Seq<char>
        recommends
            self.has(Aspect::FfiToSwift(type_pos), types),
    {
        if self.spec_is_custom_result_type() {
            self.union_to_swift_value(expression, type_pos, types, swift_bridge_path)
        } else {
            match self.ok_ty.spec_only_encoding() {
                Some(only_ok) => self.error_pointer_to_swift_value(
                    only_ok,
                    expression,
                    type_pos,
                    types,
                    swift_bridge_path,
                ),
                None => self.flag_and_pointer_to_swift_value(
                    expression,
                    type_pos,
                    types,
                    swift_bridge_path,
                ),
            }
        }
    }

    /// Swift source that gives the value of `Ok` and throws that of `Err`.
    pub fn convert_ffi_value_to_swift_value(
        &self,
        expression: &str,
        type_pos: TypePosition,
        types: &TypeDeclarations,
        swift_bridge_path: &Path,
    ) -> (r: String)
        requires
            self.has(Aspect::FfiToSwift(type_pos), types),
        ensures
            r@ == self.spec_convert_ffi_value_to_swift_value(
                expression@,
                type_pos,
                types,
                swift_bridge_path,
            ),
    {
        if self.is_custom_result_type() {
            let ok_tag = self.c_ok_tag_name(types);
            let err_tag = self.c_err_tag_name(types);
            let ok = if self.ok_ty.can_be_encoded_with_zero_bytes() {
                "".to_string()
            } else {
                let mut ok = " ".to_string();
                ok.append(
                    &self.ok_ty.convert_ffi_expression_to_swift_type(
                        "val.payload.ok",
                        type_pos,
                        types,
                        swift_bridge_path,
                    ),
                );
                ok
            };
            let err = self.err_ty.convert_ffi_expression_to_swift_type(
                "val.payload.err",
                type_pos,
                types,
                swift_bridge_path,
            );
            return match type_pos {
                TypePosition::FnReturn(_) => {
                    let mut r = "try { let val = ".to_string();
                    r.append(expression);
                    r.append("; switch val.tag { case ");
                    r.append(&ok_tag);
                    r.append(": return");
                    r.append(&ok);
                    r.append(" case ");
                    r.append(&err_tag);
                    r.append(": throw ");
                    r.append(&err);
                    r.append(" default: fatalError() } }()");
                    r
                },
                _ => {
                    let mut r = "let val = ".to_string();
                    r.append(expression);
                    r.append("; if val.tag == ");
                    r.append(&ok_tag);
                    r.append(" { self.init(ptr: val.payload.ok) } else { throw ");
                    r.append(&err);
                    r.append(" }");
                    r
                },
            };
        }
        if let Some(only_ok) = self.ok_ty.only_encoding() {
            // The Swift compiler of Xcode 13 cannot infer the type of a closure that
            // says `return ()`, but it can where the closure says `return`.
            let ok = if self.ok_ty.is_null() {
                "".to_string()
            } else {
                let mut ok = " ".to_string();
                ok.append(&only_ok.swift);
                ok
            };
            let err = self.err_ty.convert_ffi_expression_to_swift_type(
                "val!",
                type_pos,
                types,
                swift_bridge_path,
            );
            let mut r = "try { let val = ".to_string();
            r.append(expression);
            r.append("; if val != nil { throw ");
            r.append(&err);
            r.append(" } else { return");
            r.append(&ok);
            r.append(" } }()");
            return r;
        }
        let ok = self.ok_ty.convert_ffi_expression_to_swift_type(
            "val.ok_or_err!",
            type_pos,
            types,
            swift_bridge_path,
        );
        let err = self.err_ty.convert_ffi_expression_to_swift_type(
            "val.ok_or_err!",
            type_pos,
            types,
            swift_bridge_path,
        );
        let mut r = "try { let val = ".to_string();
        r.append(expression);
        r.append("; if val.is_ok { return ");
        r.append(&ok);
        r.append(" } else { throw ");
        r.append(&err);
        r.append(" } }()");
        r
    }

    /// Swift source that turns a `RustResult` into a flag and a pointer.
    pub open spec fn spec_convert_swift_expression_to_ffi_compatible(
        &self,
        expression: Seq<char>,
        types: &TypeDeclarations,
        type_pos: TypePosition,
    ) -> Seq<char> {
        "{ switch "@ + expression
            + " { case .Ok(let ok): return __private__ResultPtrAndPtr(is_ok: true, ok_or_err: "@
            + self.ok_ty.spec_convert_swift_expression_to_ffi_type("ok"@, types, type_pos)
            + ") case .Err(let err): return __private__ResultPtrAndPtr(is_ok: false, ok_or_err: "@
            + self.err_ty.spec_convert_swift_expression_to_ffi_type("err"@, types, type_pos)
            + ") } }()"@
    }

    /// Swift source that turns a `RustResult` into a flag and a pointer.
    pub fn convert_swift_expression_to_ffi_compatible(
        &self,
        expression: &str,
        types: &TypeDeclarations,
        type_pos: TypePosition,
    ) -> (r: String)
        requires
            self.has(Aspect::SwiftToFfi(type_pos), types),
        ensures
            r@ == self.spec_convert_swift_expression_to_ffi_compatible(expression@, types, type_pos),
    {
        let ok = self.ok_ty.convert_swift_expression_to_ffi_type("ok", types, type_pos);
        let err = self.err_ty.convert_swift_expression_to_ffi_type("err", types, type_pos);
        let mut r = "{ switch ".to_string();
        r.append(expression);
        r.append(
            " { case .Ok(let ok): return __private__ResultPtrAndPtr(is_ok: true, ok_or_err: ",
        );
        r.append(&ok);
        r.append(
            ") case .Err(let err): return __private__ResultPtrAndPtr(is_ok: false, ok_or_err: ",
        );
        r.append(&err);
        r.append(") } }()");
        r
    }

    /// Swift source that hands a result to the callback of an `async` function.
    pub open spec fn spec_generate_swift_calls_async_rust_callback(
        &self,
        expression: Seq<char>,
        type_pos: TypePosition,
        types: &TypeDeclarations,
        swift_bridge_path: &Path,
    ) -> Seq<char> {
        let zero_bytes = self.ok_ty.spec_can_be_encoded_with_zero_bytes();
        if self.spec_is_custom_result_type() {
            let ok = if zero_bytes {
                "()"@
            } else {
                self.ok_ty.spec_convert_ffi_expression_to_swift_type(
                    expression + ".payload.ok"@,
                    type_pos,
                    types,
                    swift_bridge_path,
                )
            };
            let err = self.err_ty.spec_convert_ffi_expression_to_swift_type(
                expression + ".payload.err"@,
                type_pos,
                types,
                swift_bridge_path,
            );
            "switch "@ + expression + ".tag { case "@ + self.spec_c_ok_tag_name(types)
                + ": wrapper.cb(.success("@ + ok + ")) case "@ + self.spec_c_err_tag_name(types)
                + ": wrapper.cb(.failure("@ + err + ")) default: fatalError() }"@
        } else {
            let ok = self.ok_ty.spec_to_swift_type(type_pos, types, swift_bridge_path);
            let err = self.err_ty.spec_to_swift_type(type_pos, types, swift_bridge_path);
            let condition = if zero_bytes {
                "rustFnRetVal == nil"@
            } else {
                "rustFnRetVal.is_ok"@
            };
            let ok_val = if zero_bytes {
                ok
            } else {
                ok + "(ptr: rustFnRetVal.ok_or_err!)"@
            };
            let err_val = if zero_bytes {
                err + "(ptr: rustFnRetVal!)"@
            } else {
                err + "(ptr: rustFnRetVal.ok_or_err!)"@
            };
            "if "@ + condition + " {\n        wrapper.cb(.success("@ + ok_val
                + "))\n    } else {\n        wrapper.cb(.failure("@ + err_val + "))\n    }"@
        }
    }

    /// Swift source that hands a result to the callback of an `async` function.
    pub fn generate_swift_calls_async_rust_callback(
        &self,
        expression: &str,
        type_pos: TypePosition,
        types: &TypeDeclarations,
        swift_bridge_path: &Path,
    ) -> (r: String)
        requires
            self.has_callback(type_pos, types),
        ensures
            r@ == self.spec_generate_swift_calls_async_rust_callback(
                expression@,
                type_pos,
                types,
                swift_bridge_path,
            ),
    {
        if self.is_custom_result_type() {
            let ok = if self.ok_ty.can_be_encoded_with_zero_bytes() {
                "()".to_string()
            } else {
                let mut payload = expression.to_string();
                payload.append(".payload.ok");
                self.ok_ty.convert_ffi_expression_to_swift_type(
                    &payload,
                    type_pos,
                    types,
                    swift_bridge_path,
                )
            };
            let mut payload = expression.to_string();
            payload.append(".payload.err");
            let err = self.err_ty.convert_ffi_expression_to_swift_type(
                &payload,
                type_pos,
                types,
                swift_bridge_path,
            );
            let mut r = "switch ".to_string();
            r.append(expression);
            r.append(".tag { case ");
            r.append(&self.c_ok_tag_name(types));
            r.append(": wrapper.cb(.success(");
            r.append(&ok);
            r.append(")) case ");
            r.append(&self.c_err_tag_name(types));
            r.append(": wrapper.cb(.failure(");
            r.append(&err);
            r.append(")) default: fatalError() }");
            return r;
        }
        let mut ok_val = self.ok_ty.to_swift_type(type_pos, types, swift_bridge_path);
        let mut err_val = self.err_ty.to_swift_type(type_pos, types, swift_bridge_path);
        let condition = if self.ok_ty.can_be_encoded_with_zero_bytes() {
            err_val.append("(ptr: rustFnRetVal!)");
            "rustFnRetVal == nil"
        } else {
            ok_val.append("(ptr: rustFnRetVal.ok_or_err!)");
            err_val.append("(ptr: rustFnRetVal.ok_or_err!)");
            "rustFnRetVal.is_ok"
        };
        let mut r = "if ".to_string();
        r.append(condition);
        r.append(" {\n        wrapper.cb(.success(");
        r.append(&ok_val);
        r.append("))\n    } else {\n        wrapper.cb(.failure(");
        r.append(&err_val);
        r.append("))\n    }");
        r
    }
}

} // verus!
