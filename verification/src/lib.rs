//! A heterogeneous sequence library: ordered sequences whose elements
//! have distinct, statically known types, indexed by type-level
//! numerals, with total optional variants of every indexed operation, a
//! type-erasure bridge onto an ordinary iteration protocol, and the two
//! source-level generators that expand numeral literals, numeral
//! expressions, and callable adapters.

pub mod adapter;
pub mod apply;
pub mod codegen;
pub mod erased;
pub mod hlist;
pub mod iter;
pub mod numeral;
pub mod optional;

pub use adapter::hkt;
pub use adapter::Adapter;
pub use adapter::AdapterImpl;
pub use adapter::CallProtocol;
pub use adapter::FnDef;
pub use adapter::FnInput;
pub use adapter::FnParam;
pub use apply::Apply;
pub use apply::MapWith;
pub use codegen::eval;
pub use codegen::expand_nat;
pub use codegen::expr;
pub use codegen::tokenize;
pub use codegen::NatExpr;
pub use codegen::ParseError;
pub use codegen::Token;
pub use erased::AsDynMut;
pub use erased::AsDynRef;
pub use erased::DynMut;
pub use erased::DynRef;
pub use erased::DynValue;
pub use erased::Erase;
pub use erased::EraseMut;
pub use erased::EraseRef;
pub use erased::ToDynBox;
pub use hlist::All;
pub use hlist::AsMutList;
pub use hlist::AsRefList;
pub use hlist::Cons;
pub use hlist::Get;
pub use hlist::GetMut;
pub use hlist::GetOptional;
pub use hlist::GetOptionalMut;
pub use hlist::HList;
pub use hlist::Insert;
pub use hlist::InsertRemove;
pub use hlist::Nil;
pub use hlist::Remove;
pub use hlist::RemoveOptional;
pub use iter::IntoIter;
pub use numeral::Nat;
pub use numeral::NatAdd;
pub use numeral::NatMul;
pub use numeral::Succ;
pub use numeral::Zero;
pub use optional::Optional;
pub use optional::TNone;
pub use optional::TSome;
