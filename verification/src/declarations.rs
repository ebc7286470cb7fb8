//! The types that a bridge module declares.
use vstd::prelude::*;

use crate::text;

verus! {

/// The language in which a function or type is written.
#[derive(Debug, Clone, Copy, PartialEq, Eq, Structural)]
pub enum HostLang {
    Rust,
    Swift,
}

impl HostLang {
    pub fn is_rust(&self) -> (r: bool)
        ensures
            r == (*self == HostLang::Rust),
    {
        matches!(self, HostLang::Rust)
    }

    pub fn is_swift(&self) -> (r: bool)
        ensures
            r == (*self == HostLang::Swift),
    {
        matches!(self, HostLang::Swift)
    }
}

/// A type that is opaque to the other language.
#[derive(Debug)]
pub struct OpaqueForeignTypeDeclaration {
    /// The name of the type.
    pub ty: String,
    /// The language that the type is written in.
    pub host_lang: HostLang,
}

/// A type that a bridge module declares.
#[derive(Debug)]
pub enum TypeDeclaration {
    /// A struct or enum whose fields both languages see.
    Shared,
    Opaque(OpaqueForeignTypeDeclaration),
}

/// The declared types by name. A later declaration replaces an earlier one of the
/// same name.
#[derive(Debug)]
pub struct TypeDeclarations {
    decls: Vec<(String, TypeDeclaration)>,
}

/// What a list of declarations says of each name.
pub open spec fn declared(decls: Seq<(String, TypeDeclaration)>) -> Map<Seq<char>, TypeDeclaration>
    decreases decls.len(),
{
    if decls.len() == 0 {
        Map::empty()
    } else {
        declared(decls.drop_last()).insert(decls.last().0@, decls.last().1)
    }
}

impl View for TypeDeclarations {
    type V = Map<Seq<char>, TypeDeclaration>;

    closed spec fn view(&self) -> Map<Seq<char>, TypeDeclaration> {
        declared(self.decls@)
    }
}

impl Default for TypeDeclarations {
    fn default() -> (r: TypeDeclarations)
        ensures
            r@ == Map::<Seq<char>, TypeDeclaration>::empty(),
    {
        TypeDeclarations { decls: Vec::new() }
    }
}

impl TypeDeclarations {
    /// Declares a type.
    pub fn insert(&mut self, name: String, decl: TypeDeclaration)
        ensures
            final(self)@ == old(self)@.insert(name@, decl),
    {
        self.decls.push((name, decl));
        assert(self.decls@.drop_last() =~= old(self).decls@);
    }

    /// The declaration of a type.
    pub fn get(&self, name: &str) -> (r: Option<&TypeDeclaration>)
        ensures
            match r {
                Some(decl) => self@.dom().contains(name@) && *decl == self@[name@],
                None => !self@.dom().contains(name@),
            },
    {
        let mut n: usize = self.decls.len();
        assert(self.decls@.take(n as int) =~= self.decls@);
        while n > 0
            invariant
                n <= self.decls@.len(),
                declared(self.decls@.take(n as int)).dom().contains(name@)
                    == self@.dom().contains(name@),
                self@.dom().contains(name@) ==> declared(self.decls@.take(n as int))[name@]
                    == self@[name@],
            decreases n,
        {
            assert(self.decls@.take(n as int).drop_last() =~= self.decls@.take(n - 1));
            if text::same(self.decls[n - 1].0.as_str(), name) {
                return Some(&self.decls[n - 1].1);
            }
            n = n - 1;
        }
        None
    }
}

} // verus!
