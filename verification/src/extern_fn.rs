//! A function of a bridge module, as far as Swift source is made from it.
use vstd::prelude::*;

use crate::bridged_type::{Aspect, BridgeableType, TypePosition};
use crate::built_in::BridgedType;
use crate::declarations::{HostLang, TypeDeclaration, TypeDeclarations};

verus! {

/// A Rust type, with its source as text.
#[derive(Debug)]
pub enum Type {
    Reference {
        /// The type behind the `&`.
        elem: String,
        whole: String,
    },
    Path {
        /// The path without a leading `::`.
        segments: String,
        whole: String,
    },
    /// Neither a reference nor a path.
    Other,
}

/// What stands behind the arrow of a signature.
#[derive(Debug)]
pub enum ReturnType {
    /// There is no arrow.
    Default,
    Type(Type),
}

/// How a parameter is handed on to Rust.
#[derive(Debug, Clone, Copy, PartialEq, Eq, Structural)]
pub enum ArgType {
    /// A `&str`.
    Str,
    /// An `Option<&str>`.
    OptionalStr,
    /// Any other type.
    Other,
}

/// A parameter.
#[derive(Debug)]
pub struct FnArg {
    pub name: String,
    pub ty: ArgType,
}

/// How a Swift initializer can fail.
#[derive(Debug, Clone, Copy, PartialEq, Eq, Structural)]
pub enum FailableInitializerType {
    /// It throws an error.
    Throwing,
    /// It gives back nil.
    Option,
}

/// Whether an `async` function can hand a value of this type to its callback.
pub open spec fn is_returned_by_async<T: BridgeableType>(
    ty: &BridgedType<T>,
    types: &TypeDeclarations,
) -> bool {
    let returned = TypePosition::FnReturn(HostLang::Rust);
    let handed_over = TypePosition::SwiftCallsRustAsyncOnCompleteReturnTy;
    &&& ty.has(Aspect::SwiftType(returned), types)
    &&& !ty.spec_is_null() ==> ty.has(Aspect::SwiftType(handed_over), types)
    &&& match ty {
        BridgedType::Result(result) => result.has_callback(returned, types),
        BridgedType::Other(other) => {
            other.spec_is_null() || other.has(Aspect::FfiToSwift(handed_over), types)
        },
    }
}

/// Whether an `async` function can hand a value of this type to its callback.
pub fn can_be_returned_by_async<T: BridgeableType>(
    ty: &BridgedType<T>,
    types: &TypeDeclarations,
) -> (r: bool)
    ensures
        r == is_returned_by_async(ty, types),
{
    let returned = TypePosition::FnReturn(HostLang::Rust);
    let handed_over = TypePosition::SwiftCallsRustAsyncOnCompleteReturnTy;
    ty.has_aspect(Aspect::SwiftType(returned), types) && (ty.is_null() || ty.has_aspect(
        Aspect::SwiftType(handed_over),
        types,
    )) && match ty {
        BridgedType::Result(result) => result.can_be_handed_to_callback(returned, types),
        BridgedType::Other(other) => {
            other.is_null() || other.has_aspect(Aspect::FfiToSwift(handed_over), types)
        },
    }
}

/// A function of a bridge module.
///
/// The return type that the bridge knows, and the Swift source in the last four
/// fields, are those for the declarations of the module that the function stands in.
#[derive(Debug)]
pub struct ParsedExternFn<T: BridgeableType> {
    /// The name of the function.
    pub name: String,
    pub is_async: bool,
    /// The parameters, `self` among them.
    pub inputs: Vec<FnArg>,
    pub output: ReturnType,
    /// The language that the function is written in.
    pub host_lang: HostLang,
    /// The type that the function is a method or an associated function of.
    pub associated_type: Option<TypeDeclaration>,
    /// Whether the function takes `self`.
    pub is_method: bool,
    /// Whether it belongs to an opaque type that is `Copy`.
    pub is_copy_method_on_opaque_type: bool,
    /// Whether it is a Swift initializer.
    pub is_swift_initializer: bool,
    /// How the Swift initializer can fail.
    pub swift_failable_initializer: Option<FailableInitializerType>,
    /// The name that the function has in Swift, if another one than in Rust.
    pub swift_name_override: Option<String>,
    /// The return type, where the bridge knows it without a declaration. Without an
    /// arrow in the signature that is `()`.
    pub built_in_return: Option<BridgedType<T>>,
    /// The parameters, with their types.
    pub swift_params: String,
    /// The arguments for the call of the Rust function.
    pub swift_call_args: String,
    /// What stands behind the parameters: nothing, or the arrow and the type.
    pub swift_return_type: String,
    /// The generics of the function, or nothing.
    pub swift_generics: String,
}

impl<T: BridgeableType> ParsedExternFn<T> {
    /// Whether the function is a Swift initializer that can throw.
    pub open spec fn throws(&self) -> bool {
        self.swift_failable_initializer == Some(FailableInitializerType::Throwing)
    }

    /// Whether the return type is `()`.
    pub open spec fn returns_null(&self) -> bool {
        match self.built_in_return {
            Some(ty) => ty.spec_is_null(),
            None => false,
        }
    }

    /// Whether the function returns a declared type, or a reference to one.
    pub open spec fn declared_return(&self, types: &TypeDeclarations) -> bool {
        match self.output {
            ReturnType::Type(Type::Reference { elem, .. }) => types@.dom().contains(elem@),
            ReturnType::Type(Type::Path { segments, .. }) => types@.dom().contains(segments@),
            _ => false,
        }
    }

    /// The functions that Swift can call: they belong to no shared type, and what
    /// they return can be turned into a Swift value.
    pub open spec fn is_callable_from_swift(&self, types: &TypeDeclarations) -> bool {
        &&& self.associated_type != Some(TypeDeclaration::Shared)
        &&& if self.is_async {
            match self.built_in_return {
                Some(ty) => is_returned_by_async(&ty, types),
                None => false,
            }
        } else if self.is_swift_initializer {
            self.throws() ==> match self.built_in_return {
                Some(ty) => ty.has(
                    Aspect::FfiToSwift(TypePosition::ThrowingInit(self.host_lang)),
                    types,
                ),
                None => false,
            }
        } else {
            match self.built_in_return {
                Some(ty) => ty.has(
                    Aspect::FfiToSwift(TypePosition::FnReturn(self.host_lang)),
                    types,
                ),
                None => self.host_lang == HostLang::Swift || self.declared_return(types),
            }
        }
    }

    fn returns_declared_type(&self, types: &TypeDeclarations) -> (r: bool)
        ensures
            r == self.declared_return(types),
    {
        match &self.output {
            ReturnType::Type(Type::Reference { elem, whole: _ }) => types.get(elem).is_some(),
            ReturnType::Type(Type::Path { segments, whole: _ }) => types.get(segments).is_some(),
            _ => false,
        }
    }

    /// Whether Swift can call the function.
    pub fn can_be_called_from_swift(&self, types: &TypeDeclarations) -> (r: bool)
        ensures
            r == self.is_callable_from_swift(types),
    {
        if let Some(TypeDeclaration::Shared) = self.associated_type {
            return false;
        }
        if self.is_async {
            return match &self.built_in_return {
                Some(ty) => can_be_returned_by_async(ty, types),
                None => false,
            };
        }
        if self.is_swift_initializer {
            return match self.swift_failable_initializer {
                Some(FailableInitializerType::Throwing) => match &self.built_in_return {
                    Some(ty) => ty.has_aspect(
                        Aspect::FfiToSwift(TypePosition::ThrowingInit(self.host_lang)),
                        types,
                    ),
                    None => false,
                },
                _ => true,
            };
        }
        match &self.built_in_return {
            Some(ty) => ty.has_aspect(
                Aspect::FfiToSwift(TypePosition::FnReturn(self.host_lang)),
                types,
            ),
            None => self.host_lang.is_swift() || self.returns_declared_type(types),
        }
    }
}

} // verus!
