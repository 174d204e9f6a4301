//! The derivation engine.
//!
//! [`BoilParse::implement`] and [`BoilParse::implement_unsized`] render the
//! fixed catalog of generated members for a parsed declaration: reference
//! views, ownership transfer, heap and pin projections, shared-ownership
//! projections, result adaptation, and the optional pointer-indirection
//! accessors. [`BoilParse::implement_display`] and
//! [`BoilParse::implement_error`] render the opt-in textual-trait
//! forwarding. Rendering is a pure function of the declaration and the mode
//! flags and never fails; each method's contract gives the rendered text
//! exactly, character for character.

use vstd::prelude::*;
use vstd::string::StringExecFns;

use crate::parse::{BoilParse, DeclView};

verus! {

/// Reference-view conversions for a sized payload: `AsRef`, `AsMut`, `Borrow`, `BorrowMut`, both directions.
pub open spec fn spec_sized_views(d: DeclView) -> Seq<char> {
    "impl "@
        + d.wrap_generics_complex
        + " AsRef<"@
        + d.name
        + d.wrap_generics_simple
        + "> for "@
        + d.imp
        + d.imp_generics
        + " "@
        + d.where_clause
        + " {\n    fn as_ref(&self) -> &"@
        + d.name
        + d.wrap_generics_simple
        + " {\n        //safe because we're layout-compatible\n        unsafe { std::mem::transmute(self) }\n    }\n}\nimpl "@
        + d.wrap_generics_complex
        + " AsRef<"@
        + d.imp
        + d.imp_generics
        + "> for "@
        + d.name
        + d.wrap_generics_simple
        + " "@
        + d.where_clause
        + " {\n    fn as_ref(&self) -> &"@
        + d.imp
        + d.imp_generics
        + " {\n        &self.0\n    }\n}\nimpl "@
        + d.wrap_generics_complex
        + " AsMut<"@
        + d.name
        + d.wrap_generics_simple
        + "> for "@
        + d.imp
        + d.imp_generics
        + " "@
        + d.where_clause
        + " {\n    fn as_mut(&mut self) -> &mut "@
        + d.name
        + d.wrap_generics_simple
        + " {\n        //safe because we're layout-compatible\n        unsafe { std::mem::transmute(self) }\n    }\n}\nimpl "@
        + d.wrap_generics_complex
        + " AsMut<"@
        + d.imp
        + d.imp_generics
        + "> for "@
        + d.name
        + d.wrap_generics_simple
        + " "@
        + d.where_clause
        + " {\n    fn as_mut(&mut self) -> &mut "@
        + d.imp
        + d.imp_generics
        + " {\n        &mut self.0\n    }\n}\nimpl "@
        + d.wrap_generics_complex
        + " std::borrow::Borrow<"@
        + d.name
        + d.wrap_generics_simple
        + "> for "@
        + d.imp
        + d.imp_generics
        + " "@
        + d.where_clause
        + " {\n    fn borrow(&self) -> &"@
        + d.name
        + d.wrap_generics_simple
        + " {\n        //safe because we're layout-compatible\n        unsafe { std::mem::transmute(self) }\n    }\n}\nimpl "@
        + d.wrap_generics_complex
        + " std::borrow::Borrow<"@
        + d.imp
        + d.imp_generics
        + "> for "@
        + d.name
        + d.wrap_generics_simple
        + " "@
        + d.where_clause
        + " {\n    fn borrow(&self) -> &"@
        + d.imp
        + d.imp_generics
        + " {\n        &self.0\n    }\n}\nimpl "@
        + d.wrap_generics_complex
        + " std::borrow::BorrowMut<"@
        + d.name
        + d.wrap_generics_simple
        + "> for "@
        + d.imp
        + d.imp_generics
        + " "@
        + d.where_clause
        + " {\n    fn borrow_mut(&mut self) -> &mut "@
        + d.name
        + d.wrap_generics_simple
        + " {\n        //safe because we're layout-compatible\n        unsafe { std::mem::transmute(self) }\n    }\n}\nimpl "@
        + d.wrap_generics_complex
        + " std::borrow::BorrowMut<"@
        + d.imp
        + d.imp_generics
        + "> for "@
        + d.name
        + d.wrap_generics_simple
        + " "@
        + d.where_clause
        + " {\n    fn borrow_mut(&mut self) -> &mut "@
        + d.imp
        + d.imp_generics
        + " {\n        &mut self.0\n    }\n}\n"@
}

fn sized_views(d: &BoilParse) -> (r: String)
    ensures
        r@ == spec_sized_views(d@),
{
    let mut r = String::from_str("impl ");
    r.append(d.wrap_generics_complex.as_str());
    r.append(" AsRef<");
    r.append(d.name.as_str());
    r.append(d.wrap_generics_simple.as_str());
    r.append("> for ");
    r.append(d.imp.as_str());
    r.append(d.imp_generics.as_str());
    r.append(" ");
    r.append(d.where_clause.as_str());
    r.append(" {\n    fn as_ref(&self) -> &");
    r.append(d.name.as_str());
    r.append(d.wrap_generics_simple.as_str());
    r.append(" {\n        //safe because we're layout-compatible\n        unsafe { std::mem::transmute(self) }\n    }\n}\nimpl ");
    r.append(d.wrap_generics_complex.as_str());
    r.append(" AsRef<");
    r.append(d.imp.as_str());
    r.append(d.imp_generics.as_str());
    r.append("> for ");
    r.append(d.name.as_str());
    r.append(d.wrap_generics_simple.as_str());
    r.append(" ");
    r.append(d.where_clause.as_str());
    r.append(" {\n    fn as_ref(&self) -> &");
    r.append(d.imp.as_str());
    r.append(d.imp_generics.as_str());
    r.append(" {\n        &self.0\n    }\n}\nimpl ");
    r.append(d.wrap_generics_complex.as_str());
    r.append(" AsMut<");
    r.append(d.name.as_str());
    r.append(d.wrap_generics_simple.as_str());
    r.append("> for ");
    r.append(d.imp.as_str());
    r.append(d.imp_generics.as_str());
    r.append(" ");
    r.append(d.where_clause.as_str());
    r.append(" {\n    fn as_mut(&mut self) -> &mut ");
    r.append(d.name.as_str());
    r.append(d.wrap_generics_simple.as_str());
    r.append(" {\n        //safe because we're layout-compatible\n        unsafe { std::mem::transmute(self) }\n    }\n}\nimpl ");
    r.append(d.wrap_generics_complex.as_str());
    r.append(" AsMut<");
    r.append(d.imp.as_str());
    r.append(d.imp_generics.as_str());
    r.append("> for ");
    r.append(d.name.as_str());
    r.append(d.wrap_generics_simple.as_str());
    r.append(" ");
    r.append(d.where_clause.as_str());
    r.append(" {\n    fn as_mut(&mut self) -> &mut ");
    r.append(d.imp.as_str());
    r.append(d.imp_generics.as_str());
    r.append(" {\n        &mut self.0\n    }\n}\nimpl ");
    r.append(d.wrap_generics_complex.as_str());
    r.append(" std::borrow::Borrow<");
    r.append(d.name.as_str());
    r.append(d.wrap_generics_simple.as_str());
    r.append("> for ");
    r.append(d.imp.as_str());
    r.append(d.imp_generics.as_str());
    r.append(" ");
    r.append(d.where_clause.as_str());
    r.append(" {\n    fn borrow(&self) -> &");
    r.append(d.name.as_str());
    r.append(d.wrap_generics_simple.as_str());
    r.append(" {\n        //safe because we're layout-compatible\n        unsafe { std::mem::transmute(self) }\n    }\n}\nimpl ");
    r.append(d.wrap_generics_complex.as_str());
    r.append(" std::borrow::Borrow<");
    r.append(d.imp.as_str());
    r.append(d.imp_generics.as_str());
    r.append("> for ");
    r.append(d.name.as_str());
    r.append(d.wrap_generics_simple.as_str());
    r.append(" ");
    r.append(d.where_clause.as_str());
    r.append(" {\n    fn borrow(&self) -> &");
    r.append(d.imp.as_str());
    r.append(d.imp_generics.as_str());
    r.append(" {\n        &self.0\n    }\n}\nimpl ");
    r.append(d.wrap_generics_complex.as_str());
    r.append(" std::borrow::BorrowMut<");
    r.append(d.name.as_str());
    r.append(d.wrap_generics_simple.as_str());
    r.append("> for ");
    r.append(d.imp.as_str());
    r.append(d.imp_generics.as_str());
    r.append(" ");
    r.append(d.where_clause.as_str());
    r.append(" {\n    fn borrow_mut(&mut self) -> &mut ");
    r.append(d.name.as_str());
    r.append(d.wrap_generics_simple.as_str());
    r.append(" {\n        //safe because we're layout-compatible\n        unsafe { std::mem::transmute(self) }\n    }\n}\nimpl ");
    r.append(d.wrap_generics_complex.as_str());
    r.append(" std::borrow::BorrowMut<");
    r.append(d.imp.as_str());
    r.append(d.imp_generics.as_str());
    r.append("> for ");
    r.append(d.name.as_str());
    r.append(d.wrap_generics_simple.as_str());
    r.append(" ");
    r.append(d.where_clause.as_str());
    r.append(" {\n    fn borrow_mut(&mut self) -> &mut ");
    r.append(d.imp.as_str());
    r.append(d.imp_generics.as_str());
    r.append(" {\n        &mut self.0\n    }\n}\n");
    r
}

/// Ownership-transfer conversions (`From`, by value), sized mode only.
pub open spec fn spec_sized_owned(d: DeclView) -> Seq<char> {
    "impl "@
        + d.wrap_generics_complex
        + " From<"@
        + d.imp
        + d.imp_generics
        + "> for "@
        + d.name
        + d.wrap_generics_simple
        + " "@
        + d.where_clause
        + " {\n    fn from(t: "@
        + d.imp
        + d.imp_generics
        + ") -> Self {\n        Self(t)\n    }\n}\nimpl "@
        + d.wrap_generics_complex
        + " From<"@
        + d.name
        + d.wrap_generics_simple
        + "> for "@
        + d.imp
        + d.imp_generics
        + " "@
        + d.where_clause
        + " {\n    fn from(t: "@
        + d.name
        + d.wrap_generics_simple
        + ") -> "@
        + d.imp
        + d.imp_generics
        + " {\n        t.0\n    }\n}\n"@
}

fn sized_owned(d: &BoilParse) -> (r: String)
    ensures
        r@ == spec_sized_owned(d@),
{
    let mut r = String::from_str("impl ");
    r.append(d.wrap_generics_complex.as_str());
    r.append(" From<");
    r.append(d.imp.as_str());
    r.append(d.imp_generics.as_str());
    r.append("> for ");
    r.append(d.name.as_str());
    r.append(d.wrap_generics_simple.as_str());
    r.append(" ");
    r.append(d.where_clause.as_str());
    r.append(" {\n    fn from(t: ");
    r.append(d.imp.as_str());
    r.append(d.imp_generics.as_str());
    r.append(") -> Self {\n        Self(t)\n    }\n}\nimpl ");
    r.append(d.wrap_generics_complex.as_str());
    r.append(" From<");
    r.append(d.name.as_str());
    r.append(d.wrap_generics_simple.as_str());
    r.append("> for ");
    r.append(d.imp.as_str());
    r.append(d.imp_generics.as_str());
    r.append(" ");
    r.append(d.where_clause.as_str());
    r.append(" {\n    fn from(t: ");
    r.append(d.name.as_str());
    r.append(d.wrap_generics_simple.as_str());
    r.append(") -> ");
    r.append(d.imp.as_str());
    r.append(d.imp_generics.as_str());
    r.append(" {\n        t.0\n    }\n}\n");
    r
}

/// Heap-allocation projections between `Box` of the payload and `Box` of the wrapper, reusing the allocation.
pub open spec fn spec_sized_box(d: DeclView) -> Seq<char> {
    "impl "@
        + d.wrap_generics_complex
        + " From<Box<"@
        + d.imp
        + d.imp_generics
        + ">> for Box<"@
        + d.name
        + d.wrap_generics_simple
        + "> "@
        + d.where_clause
        + " {\n    fn from(t: Box<"@
        + d.imp
        + d.imp_generics
        + ">) -> Self {\n        let f = Box::into_raw(t) as *mut "@
        + d.name
        + d.wrap_generics_simple
        + ";\n        //safe because we're layout-compatible\n        unsafe { Box::from_raw(f) }\n    }\n}\nimpl "@
        + d.wrap_generics_complex
        + " From<Box<"@
        + d.name
        + d.wrap_generics_simple
        + ">> for Box<"@
        + d.imp
        + d.imp_generics
        + "> "@
        + d.where_clause
        + " {\n    fn from(t: Box<"@
        + d.name
        + d.wrap_generics_simple
        + ">) -> Self {\n        let f = Box::into_raw(t) as *mut "@
        + d.imp
        + d.imp_generics
        + ";\n        //safe because we're layout-compatible\n        unsafe { Box::from_raw(f) }\n    }\n}\n"@
}

fn sized_box(d: &BoilParse) -> (r: String)
    ensures
        r@ == spec_sized_box(d@),
{
    let mut r = String::from_str("impl ");
    r.append(d.wrap_generics_complex.as_str());
    r.append(" From<Box<");
    r.append(d.imp.as_str());
    r.append(d.imp_generics.as_str());
    r.append(">> for Box<");
    r.append(d.name.as_str());
    r.append(d.wrap_generics_simple.as_str());
    r.append("> ");
    r.append(d.where_clause.as_str());
    r.append(" {\n    fn from(t: Box<");
    r.append(d.imp.as_str());
    r.append(d.imp_generics.as_str());
    r.append(">) -> Self {\n        let f = Box::into_raw(t) as *mut ");
    r.append(d.name.as_str());
    r.append(d.wrap_generics_simple.as_str());
    r.append(";\n        //safe because we're layout-compatible\n        unsafe { Box::from_raw(f) }\n    }\n}\nimpl ");
    r.append(d.wrap_generics_complex.as_str());
    r.append(" From<Box<");
    r.append(d.name.as_str());
    r.append(d.wrap_generics_simple.as_str());
    r.append(">> for Box<");
    r.append(d.imp.as_str());
    r.append(d.imp_generics.as_str());
    r.append("> ");
    r.append(d.where_clause.as_str());
    r.append(" {\n    fn from(t: Box<");
    r.append(d.name.as_str());
    r.append(d.wrap_generics_simple.as_str());
    r.append(">) -> Self {\n        let f = Box::into_raw(t) as *mut ");
    r.append(d.imp.as_str());
    r.append(d.imp_generics.as_str());
    r.append(";\n        //safe because we're layout-compatible\n        unsafe { Box::from_raw(f) }\n    }\n}\n");
    r
}

/// Pinned-reference projections, immutable and mutable, both directions.
pub open spec fn spec_sized_pin(d: DeclView) -> Seq<char> {
    "impl "@
        + d.wrap_generics_complex
        + " From<core::pin::Pin<&"@
        + d.imp
        + d.imp_generics
        + ">> for core::pin::Pin<&"@
        + d.name
        + d.wrap_generics_simple
        + "> "@
        + d.where_clause
        + " {\n    fn from(t: core::pin::Pin<&"@
        + d.imp
        + d.imp_generics
        + ">) -> Self {\n        //safe because we're layout-compatible\n        unsafe {\n            let f = core::pin::Pin::into_inner_unchecked(t) as &_ as *const _ as *const "@
        + d.name
        + d.wrap_generics_simple
        + ";\n            core::pin::Pin::new_unchecked(&*f)\n        }\n    }\n}\nimpl "@
        + d.wrap_generics_complex
        + " From<core::pin::Pin<&mut "@
        + d.imp
        + d.imp_generics
        + ">> for core::pin::Pin<&mut "@
        + d.name
        + d.wrap_generics_simple
        + "> "@
        + d.where_clause
        + " {\n    fn from(t: core::pin::Pin<&mut "@
        + d.imp
        + d.imp_generics
        + ">) -> Self {\n        //safe because we're layout-compatible\n        unsafe {\n            let f = core::pin::Pin::into_inner_unchecked(t) as &mut _ as *mut _ as *mut "@
        + d.name
        + d.wrap_generics_simple
        + ";\n            core::pin::Pin::new_unchecked(&mut *f)\n        }\n    }\n}\nimpl "@
        + d.wrap_generics_complex
        + " From<core::pin::Pin<&"@
        + d.name
        + d.wrap_generics_simple
        + ">> for core::pin::Pin<&"@
        + d.imp
        + d.imp_generics
        + "> "@
        + d.where_clause
        + " {\n    fn from(t: core::pin::Pin<&"@
        + d.name
        + d.wrap_generics_simple
        + ">) -> Self {\n        //safe because we're layout-compatible\n        unsafe {\n            let f = core::pin::Pin::into_inner_unchecked(t) as *const _ as *const "@
        + d.imp
        + d.imp_generics
        + ";\n            core::pin::Pin::new_unchecked(&*f)\n        }\n    }\n}\nimpl "@
        + d.wrap_generics_complex
        + " From<core::pin::Pin<&mut "@
        + d.name
        + d.wrap_generics_simple
        + ">> for core::pin::Pin<&mut "@
        + d.imp
        + d.imp_generics
        + "> "@
        + d.where_clause
        + " {\n    fn from(t: core::pin::Pin<&mut "@
        + d.name
        + d.wrap_generics_simple
        + ">) -> Self {\n        //safe because we're layout-compatible\n        unsafe {\n            let f = core::pin::Pin::into_inner_unchecked(t) as *mut _ as *mut "@
        + d.imp
        + d.imp_generics
        + ";\n            core::pin::Pin::new_unchecked(&mut *f)\n        }\n    }\n}\n"@
}

fn sized_pin(d: &BoilParse) -> (r: String)
    ensures
        r@ == spec_sized_pin(d@),
{
    let mut r = String::from_str("impl ");
    r.append(d.wrap_generics_complex.as_str());
    r.append(" From<core::pin::Pin<&");
    r.append(d.imp.as_str());
    r.append(d.imp_generics.as_str());
    r.append(">> for core::pin::Pin<&");
    r.append(d.name.as_str());
    r.append(d.wrap_generics_simple.as_str());
    r.append("> ");
    r.append(d.where_clause.as_str());
    r.append(" {\n    fn from(t: core::pin::Pin<&");
    r.append(d.imp.as_str());
    r.append(d.imp_generics.as_str());
    r.append(">) -> Self {\n        //safe because we're layout-compatible\n        unsafe {\n            let f = core::pin::Pin::into_inner_unchecked(t) as &_ as *const _ as *const ");
    r.append(d.name.as_str());
    r.append(d.wrap_generics_simple.as_str());
    r.append(";\n            core::pin::Pin::new_unchecked(&*f)\n        }\n    }\n}\nimpl ");
    r.append(d.wrap_generics_complex.as_str());
    r.append(" From<core::pin::Pin<&mut ");
    r.append(d.imp.as_str());
    r.append(d.imp_generics.as_str());
    r.append(">> for core::pin::Pin<&mut ");
    r.append(d.name.as_str());
    r.append(d.wrap_generics_simple.as_str());
    r.append("> ");
    r.append(d.where_clause.as_str());
    r.append(" {\n    fn from(t: core::pin::Pin<&mut ");
    r.append(d.imp.as_str());
    r.append(d.imp_generics.as_str());
    r.append(">) -> Self {\n        //safe because we're layout-compatible\n        unsafe {\n            let f = core::pin::Pin::into_inner_unchecked(t) as &mut _ as *mut _ as *mut ");
    r.append(d.name.as_str());
    r.append(d.wrap_generics_simple.as_str());
    r.append(";\n            core::pin::Pin::new_unchecked(&mut *f)\n        }\n    }\n}\nimpl ");
    r.append(d.wrap_generics_complex.as_str());
    r.append(" From<core::pin::Pin<&");
    r.append(d.name.as_str());
    r.append(d.wrap_generics_simple.as_str());
    r.append(">> for core::pin::Pin<&");
    r.append(d.imp.as_str());
    r.append(d.imp_generics.as_str());
    r.append("> ");
    r.append(d.where_clause.as_str());
    r.append(" {\n    fn from(t: core::pin::Pin<&");
    r.append(d.name.as_str());
    r.append(d.wrap_generics_simple.as_str());
    r.append(">) -> Self {\n        //safe because we're layout-compatible\n        unsafe {\n            let f = core::pin::Pin::into_inner_unchecked(t) as *const _ as *const ");
    r.append(d.imp.as_str());
    r.append(d.imp_generics.as_str());
    r.append(";\n            core::pin::Pin::new_unchecked(&*f)\n        }\n    }\n}\nimpl ");
    r.append(d.wrap_generics_complex.as_str());
    r.append(" From<core::pin::Pin<&mut ");
    r.append(d.name.as_str());
    r.append(d.wrap_generics_simple.as_str());
    r.append(">> for core::pin::Pin<&mut ");
    r.append(d.imp.as_str());
    r.append(d.imp_generics.as_str());
    r.append("> ");
    r.append(d.where_clause.as_str());
    r.append(" {\n    fn from(t: core::pin::Pin<&mut ");
    r.append(d.name.as_str());
    r.append(d.wrap_generics_simple.as_str());
    r.append(">) -> Self {\n        //safe because we're layout-compatible\n        unsafe {\n            let f = core::pin::Pin::into_inner_unchecked(t) as *mut _ as *mut ");
    r.append(d.imp.as_str());
    r.append(d.imp_generics.as_str());
    r.append(";\n            core::pin::Pin::new_unchecked(&mut *f)\n        }\n    }\n}\n");
    r
}

/// Shared-ownership projections for `Arc` and `Rc`, both directions, as named conversion operations.
pub open spec fn spec_shared_owners(d: DeclView) -> Seq<char> {
    "impl "@
        + d.wrap_generics_complex
        + " "@
        + d.name
        + d.wrap_generics_simple
        + " "@
        + d.where_clause
        + " {\n    ///Converts an [std::sync::Arc] of the underlying type to an [std::sync::Arc] of the wrapper, reusing the allocation.\n    ///\n    ///This is a zero-cost abstraction.\n    "@
        + d.vis
        + " fn from_arc(arc: std::sync::Arc<"@
        + d.imp
        + d.imp_generics
        + ">) -> std::sync::Arc<"@
        + d.name
        + d.wrap_generics_simple
        + "> {\n        let f = std::sync::Arc::into_raw(arc) as *mut "@
        + d.name
        + d.wrap_generics_simple
        + ";\n        //safe because we're layout-compatible\n        unsafe { std::sync::Arc::from_raw(f) }\n    }\n    ///Converts an [std::sync::Arc] of the wrapper to an [std::sync::Arc] of the underlying type, reusing the allocation.\n    ///\n    ///This is a zero-cost abstraction.\n    "@
        + d.vis
        + " fn to_arc(self: std::sync::Arc<Self>) -> std::sync::Arc<"@
        + d.imp
        + d.imp_generics
        + "> {\n        let f = std::sync::Arc::into_raw(self) as *mut "@
        + d.imp
        + d.imp_generics
        + ";\n        //safe because we're layout-compatible\n        unsafe { std::sync::Arc::from_raw(f) }\n    }\n    ///Converts an [std::rc::Rc] of the underlying type to an [std::rc::Rc] of the wrapper, reusing the allocation.\n    ///\n    ///This is a zero-cost abstraction.\n    "@
        + d.vis
        + " fn from_rc(rc: std::rc::Rc<"@
        + d.imp
        + d.imp_generics
        + ">) -> std::rc::Rc<"@
        + d.name
        + d.wrap_generics_simple
        + "> {\n        let f = std::rc::Rc::into_raw(rc) as *mut "@
        + d.name
        + d.wrap_generics_simple
        + ";\n        //safe because we're layout-compatible\n        unsafe { std::rc::Rc::from_raw(f) }\n    }\n    ///Converts an [std::rc::Rc] of the wrapper to an [std::rc::Rc] of the underlying type, reusing the allocation.\n    ///\n    ///This is a zero-cost abstraction.\n    "@
        + d.vis
        + " fn to_rc(self: std::rc::Rc<Self>) -> std::rc::Rc<"@
        + d.imp
        + d.imp_generics
        + "> {\n        let f = std::rc::Rc::into_raw(self) as *mut "@
        + d.imp
        + d.imp_generics
        + ";\n        //safe because we're layout-compatible\n        unsafe { std::rc::Rc::from_raw(f) }\n    }\n}\n"@
}

fn shared_owners(d: &BoilParse) -> (r: String)
    ensures
        r@ == spec_shared_owners(d@),
{
    let mut r = String::from_str("impl ");
    r.append(d.wrap_generics_complex.as_str());
    r.append(" ");
    r.append(d.name.as_str());
    r.append(d.wrap_generics_simple.as_str());
    r.append(" ");
    r.append(d.where_clause.as_str());
    r.append(" {\n    ///Converts an [std::sync::Arc] of the underlying type to an [std::sync::Arc] of the wrapper, reusing the allocation.\n    ///\n    ///This is a zero-cost abstraction.\n    ");
    r.append(d.vis.as_str());
    r.append(" fn from_arc(arc: std::sync::Arc<");
    r.append(d.imp.as_str());
    r.append(d.imp_generics.as_str());
    r.append(">) -> std::sync::Arc<");
    r.append(d.name.as_str());
    r.append(d.wrap_generics_simple.as_str());
    r.append("> {\n        let f = std::sync::Arc::into_raw(arc) as *mut ");
    r.append(d.name.as_str());
    r.append(d.wrap_generics_simple.as_str());
    r.append(";\n        //safe because we're layout-compatible\n        unsafe { std::sync::Arc::from_raw(f) }\n    }\n    ///Converts an [std::sync::Arc] of the wrapper to an [std::sync::Arc] of the underlying type, reusing the allocation.\n    ///\n    ///This is a zero-cost abstraction.\n    ");
    r.append(d.vis.as_str());
    r.append(" fn to_arc(self: std::sync::Arc<Self>) -> std::sync::Arc<");
    r.append(d.imp.as_str());
    r.append(d.imp_generics.as_str());
    r.append("> {\n        let f = std::sync::Arc::into_raw(self) as *mut ");
    r.append(d.imp.as_str());
    r.append(d.imp_generics.as_str());
    r.append(";\n        //safe because we're layout-compatible\n        unsafe { std::sync::Arc::from_raw(f) }\n    }\n    ///Converts an [std::rc::Rc] of the underlying type to an [std::rc::Rc] of the wrapper, reusing the allocation.\n    ///\n    ///This is a zero-cost abstraction.\n    ");
    r.append(d.vis.as_str());
    r.append(" fn from_rc(rc: std::rc::Rc<");
    r.append(d.imp.as_str());
    r.append(d.imp_generics.as_str());
    r.append(">) -> std::rc::Rc<");
    r.append(d.name.as_str());
    r.append(d.wrap_generics_simple.as_str());
    r.append("> {\n        let f = std::rc::Rc::into_raw(rc) as *mut ");
    r.append(d.name.as_str());
    r.append(d.wrap_generics_simple.as_str());
    r.append(";\n        //safe because we're layout-compatible\n        unsafe { std::rc::Rc::from_raw(f) }\n    }\n    ///Converts an [std::rc::Rc] of the wrapper to an [std::rc::Rc] of the underlying type, reusing the allocation.\n    ///\n    ///This is a zero-cost abstraction.\n    ");
    r.append(d.vis.as_str());
    r.append(" fn to_rc(self: std::rc::Rc<Self>) -> std::rc::Rc<");
    r.append(d.imp.as_str());
    r.append(d.imp_generics.as_str());
    r.append("> {\n        let f = std::rc::Rc::into_raw(self) as *mut ");
    r.append(d.imp.as_str());
    r.append(d.imp_generics.as_str());
    r.append(";\n        //safe because we're layout-compatible\n        unsafe { std::rc::Rc::from_raw(f) }\n    }\n}\n");
    r
}

/// Result adaptation by value between payload-carrying and wrapper-carrying results, sized mode only.
pub open spec fn spec_sized_results(d: DeclView) -> Seq<char> {
    "impl "@
        + d.wrap_generics_complex
        + " "@
        + d.name
        + d.wrap_generics_simple
        + " "@
        + d.where_clause
        + " {\n    ///Converts a Result carrying the underlying type into a Result carrying the wrapper.\n    ///\n    ///If necessary, also converts the error between any types convertible with [Into].\n    "@
        + d.vis
        + " fn from_result<T: Into<Self>, E: Into<ErrWrapped>, ErrWrapped>(r: Result<T, E>) -> Result<Self, ErrWrapped> {\n        r.map(|t| t.into()).map_err(|e| e.into())\n    }\n    ///Converts a Result carrying the wrapper into a Result carrying the underlying type.\n    ///\n    ///If necessary, also converts the error between any types convertible with [Into].\n    "@
        + d.vis
        + " fn into_result<E: Into<EUnwrapped>, EUnwrapped>(r: Result<Self, E>) -> Result<"@
        + d.imp
        + d.imp_generics
        + ", EUnwrapped> {\n        r.map(|t| t.into()).map_err(|e| e.into())\n    }\n}\n"@
}

fn sized_results(d: &BoilParse) -> (r: String)
    ensures
        r@ == spec_sized_results(d@),
{
    let mut r = String::from_str("impl ");
    r.append(d.wrap_generics_complex.as_str());
    r.append(" ");
    r.append(d.name.as_str());
    r.append(d.wrap_generics_simple.as_str());
    r.append(" ");
    r.append(d.where_clause.as_str());
    r.append(" {\n    ///Converts a Result carrying the underlying type into a Result carrying the wrapper.\n    ///\n    ///If necessary, also converts the error between any types convertible with [Into].\n    ");
    r.append(d.vis.as_str());
    r.append(" fn from_result<T: Into<Self>, E: Into<ErrWrapped>, ErrWrapped>(r: Result<T, E>) -> Result<Self, ErrWrapped> {\n        r.map(|t| t.into()).map_err(|e| e.into())\n    }\n    ///Converts a Result carrying the wrapper into a Result carrying the underlying type.\n    ///\n    ///If necessary, also converts the error between any types convertible with [Into].\n    ");
    r.append(d.vis.as_str());
    r.append(" fn into_result<E: Into<EUnwrapped>, EUnwrapped>(r: Result<Self, E>) -> Result<");
    r.append(d.imp.as_str());
    r.append(d.imp_generics.as_str());
    r.append(", EUnwrapped> {\n        r.map(|t| t.into()).map_err(|e| e.into())\n    }\n}\n");
    r
}

/// Pointer-indirection accessors (`Deref`, `DerefMut`), omitted in scoped mode.
pub open spec fn spec_deref_accessors(d: DeclView) -> Seq<char> {
    "impl "@
        + d.wrap_generics_complex
        + " std::ops::Deref for "@
        + d.name
        + d.wrap_generics_simple
        + " "@
        + d.where_clause
        + " {\n    type Target = "@
        + d.imp
        + d.imp_generics
        + ";\n    fn deref(&self) -> &Self::Target {\n        &self.0\n    }\n}\nimpl "@
        + d.wrap_generics_complex
        + " std::ops::DerefMut for "@
        + d.name
        + d.wrap_generics_simple
        + " "@
        + d.where_clause
        + " {\n    fn deref_mut(&mut self) -> &mut Self::Target {\n        &mut self.0\n    }\n}\n"@
}

fn deref_accessors(d: &BoilParse) -> (r: String)
    ensures
        r@ == spec_deref_accessors(d@),
{
    let mut r = String::from_str("impl ");
    r.append(d.wrap_generics_complex.as_str());
    r.append(" std::ops::Deref for ");
    r.append(d.name.as_str());
    r.append(d.wrap_generics_simple.as_str());
    r.append(" ");
    r.append(d.where_clause.as_str());
    r.append(" {\n    type Target = ");
    r.append(d.imp.as_str());
    r.append(d.imp_generics.as_str());
    r.append(";\n    fn deref(&self) -> &Self::Target {\n        &self.0\n    }\n}\nimpl ");
    r.append(d.wrap_generics_complex.as_str());
    r.append(" std::ops::DerefMut for ");
    r.append(d.name.as_str());
    r.append(d.wrap_generics_simple.as_str());
    r.append(" ");
    r.append(d.where_clause.as_str());
    r.append(" {\n    fn deref_mut(&mut self) -> &mut Self::Target {\n        &mut self.0\n    }\n}\n");
    r
}

/// Reference-view conversions for an unsized payload, with explicit `'static` bounds on payload-typed return positions.
pub open spec fn spec_unsized_views(d: DeclView) -> Seq<char> {
    "impl "@
        + d.wrap_generics_complex
        + " AsRef<"@
        + d.name
        + d.wrap_generics_simple
        + "> for "@
        + d.imp
        + d.imp_generics
        + " "@
        + d.where_clause
        + " {\n    fn as_ref(&self) -> &"@
        + d.name
        + d.wrap_generics_simple
        + " {\n        //safe because the wrapper is layout-compatible with the payload\n        unsafe { std::mem::transmute(self) }\n    }\n}\nimpl "@
        + d.wrap_generics_complex
        + " AsRef<"@
        + d.imp
        + d.imp_generics
        + "> for "@
        + d.name
        + d.wrap_generics_simple
        + " "@
        + d.where_clause
        + " {\n    fn as_ref(&self) -> &("@
        + d.imp
        + d.imp_generics
        + " + 'static) {\n        &self.0\n    }\n}\nimpl "@
        + d.wrap_generics_complex
        + " AsMut<"@
        + d.name
        + d.wrap_generics_simple
        + "> for "@
        + d.imp
        + d.imp_generics
        + " "@
        + d.where_clause
        + " {\n    fn as_mut(&mut self) -> &mut "@
        + d.name
        + d.wrap_generics_simple
        + " {\n        //safe because the wrapper is layout-compatible with the payload\n        unsafe { std::mem::transmute(self) }\n    }\n}\nimpl "@
        + d.wrap_generics_complex
        + " AsMut<"@
        + d.imp
        + d.imp_generics
        + "> for "@
        + d.name
        + d.wrap_generics_simple
        + " "@
        + d.where_clause
        + " {\n    fn as_mut(&mut self) -> &mut ("@
        + d.imp
        + d.imp_generics
        + " + 'static) {\n        &mut self.0\n    }\n}\nimpl "@
        + d.wrap_generics_complex
        + " std::borrow::Borrow<"@
        + d.name
        + d.wrap_generics_simple
        + "> for "@
        + d.imp
        + d.imp_generics
        + " "@
        + d.where_clause
        + " {\n    fn borrow(&self) -> &"@
        + d.name
        + d.wrap_generics_simple
        + " {\n        //safe because the wrapper is layout-compatible with the payload\n        unsafe { std::mem::transmute(self) }\n    }\n}\nimpl "@
        + d.wrap_generics_complex
        + " std::borrow::Borrow<"@
        + d.imp
        + d.imp_generics
        + "> for "@
        + d.name
        + d.wrap_generics_simple
        + " "@
        + d.where_clause
        + " {\n    fn borrow(&self) -> &("@
        + d.imp
        + d.imp_generics
        + " + 'static) {\n        &self.0\n    }\n}\nimpl "@
        + d.wrap_generics_complex
        + " std::borrow::BorrowMut<"@
        + d.name
        + d.wrap_generics_simple
        + "> for "@
        + d.imp
        + d.imp_generics
        + " "@
        + d.where_clause
        + " {\n    fn borrow_mut(&mut self) -> &mut "@
        + d.name
        + d.wrap_generics_simple
        + " {\n        //safe because the wrapper is layout-compatible with the payload\n        unsafe { std::mem::transmute(self) }\n    }\n}\nimpl "@
        + d.wrap_generics_complex
        + " std::borrow::BorrowMut<"@
        + d.imp
        + d.imp_generics
        + "> for "@
        + d.name
        + d.wrap_generics_simple
        + " "@
        + d.where_clause
        + " {\n    fn borrow_mut(&mut self) -> &mut ("@
        + d.imp
        + d.imp_generics
        + " + 'static) {\n        &mut self.0\n    }\n}\n"@
}

fn unsized_views(d: &BoilParse) -> (r: String)
    ensures
        r@ == spec_unsized_views(d@),
{
    let mut r = String::from_str("impl ");
    r.append(d.wrap_generics_complex.as_str());
    r.append(" AsRef<");
    r.append(d.name.as_str());
    r.append(d.wrap_generics_simple.as_str());
    r.append("> for ");
    r.append(d.imp.as_str());
    r.append(d.imp_generics.as_str());
    r.append(" ");
    r.append(d.where_clause.as_str());
    r.append(" {\n    fn as_ref(&self) -> &");
    r.append(d.name.as_str());
    r.append(d.wrap_generics_simple.as_str());
    r.append(" {\n        //safe because the wrapper is layout-compatible with the payload\n        unsafe { std::mem::transmute(self) }\n    }\n}\nimpl ");
    r.append(d.wrap_generics_complex.as_str());
    r.append(" AsRef<");
    r.append(d.imp.as_str());
    r.append(d.imp_generics.as_str());
    r.append("> for ");
    r.append(d.name.as_str());
    r.append(d.wrap_generics_simple.as_str());
    r.append(" ");
    r.append(d.where_clause.as_str());
    r.append(" {\n    fn as_ref(&self) -> &(");
    r.append(d.imp.as_str());
    r.append(d.imp_generics.as_str());
    r.append(" + 'static) {\n        &self.0\n    }\n}\nimpl ");
    r.append(d.wrap_generics_complex.as_str());
    r.append(" AsMut<");
    r.append(d.name.as_str());
    r.append(d.wrap_generics_simple.as_str());
    r.append("> for ");
    r.append(d.imp.as_str());
    r.append(d.imp_generics.as_str());
    r.append(" ");
    r.append(d.where_clause.as_str());
    r.append(" {\n    fn as_mut(&mut self) -> &mut ");
    r.append(d.name.as_str());
    r.append(d.wrap_generics_simple.as_str());
    r.append(" {\n        //safe because the wrapper is layout-compatible with the payload\n        unsafe { std::mem::transmute(self) }\n    }\n}\nimpl ");
    r.append(d.wrap_generics_complex.as_str());
    r.append(" AsMut<");
    r.append(d.imp.as_str());
    r.append(d.imp_generics.as_str());
    r.append("> for ");
    r.append(d.name.as_str());
    r.append(d.wrap_generics_simple.as_str());
    r.append(" ");
    r.append(d.where_clause.as_str());
    r.append(" {\n    fn as_mut(&mut self) -> &mut (");
    r.append(d.imp.as_str());
    r.append(d.imp_generics.as_str());
    r.append(" + 'static) {\n        &mut self.0\n    }\n}\nimpl ");
    r.append(d.wrap_generics_complex.as_str());
    r.append(" std::borrow::Borrow<");
    r.append(d.name.as_str());
    r.append(d.wrap_generics_simple.as_str());
    r.append("> for ");
    r.append(d.imp.as_str());
    r.append(d.imp_generics.as_str());
    r.append(" ");
    r.append(d.where_clause.as_str());
    r.append(" {\n    fn borrow(&self) -> &");
    r.append(d.name.as_str());
    r.append(d.wrap_generics_simple.as_str());
    r.append(" {\n        //safe because the wrapper is layout-compatible with the payload\n        unsafe { std::mem::transmute(self) }\n    }\n}\nimpl ");
    r.append(d.wrap_generics_complex.as_str());
    r.append(" std::borrow::Borrow<");
    r.append(d.imp.as_str());
    r.append(d.imp_generics.as_str());
    r.append("> for ");
    r.append(d.name.as_str());
    r.append(d.wrap_generics_simple.as_str());
    r.append(" ");
    r.append(d.where_clause.as_str());
    r.append(" {\n    fn borrow(&self) -> &(");
    r.append(d.imp.as_str());
    r.append(d.imp_generics.as_str());
    r.append(" + 'static) {\n        &self.0\n    }\n}\nimpl ");
    r.append(d.wrap_generics_complex.as_str());
    r.append(" std::borrow::BorrowMut<");
    r.append(d.name.as_str());
    r.append(d.wrap_generics_simple.as_str());
    r.append("> for ");
    r.append(d.imp.as_str());
    r.append(d.imp_generics.as_str());
    r.append(" ");
    r.append(d.where_clause.as_str());
    r.append(" {\n    fn borrow_mut(&mut self) -> &mut ");
    r.append(d.name.as_str());
    r.append(d.wrap_generics_simple.as_str());
    r.append(" {\n        //safe because the wrapper is layout-compatible with the payload\n        unsafe { std::mem::transmute(self) }\n    }\n}\nimpl ");
    r.append(d.wrap_generics_complex.as_str());
    r.append(" std::borrow::BorrowMut<");
    r.append(d.imp.as_str());
    r.append(d.imp_generics.as_str());
    r.append("> for ");
    r.append(d.name.as_str());
    r.append(d.wrap_generics_simple.as_str());
    r.append(" ");
    r.append(d.where_clause.as_str());
    r.append(" {\n    fn borrow_mut(&mut self) -> &mut (");
    r.append(d.imp.as_str());
    r.append(d.imp_generics.as_str());
    r.append(" + 'static) {\n        &mut self.0\n    }\n}\n");
    r
}

/// Reference conversions (`From` on `&` and `&mut`) for an unsized payload, which has no by-value conversions.
pub open spec fn spec_unsized_refs(d: DeclView) -> Seq<char> {
    "impl "@
        + d.wrap_generics_complex
        + " From<&"@
        + d.imp
        + d.imp_generics
        + "> for &"@
        + d.name
        + d.wrap_generics_simple
        + " "@
        + d.where_clause
        + " {\n    fn from(t: &"@
        + d.imp
        + d.imp_generics
        + ") -> Self {\n        //safe because we're layout-compatible\n        unsafe { &*(t as *const _ as *const _) }\n    }\n}\nimpl "@
        + d.wrap_generics_complex
        + " From<&"@
        + d.name
        + d.wrap_generics_simple
        + "> for &"@
        + d.imp
        + d.imp_generics
        + " "@
        + d.where_clause
        + " {\n    fn from(t: &"@
        + d.name
        + d.wrap_generics_simple
        + ") -> Self {\n        //transmute, since the wrapper is not known to implement the payload's trait\n        unsafe { std::mem::transmute(t) }\n    }\n}\nimpl "@
        + d.wrap_generics_complex
        + " From<&mut "@
        + d.imp
        + d.imp_generics
        + "> for &mut "@
        + d.name
        + d.wrap_generics_simple
        + " "@
        + d.where_clause
        + " {\n    fn from(t: &mut "@
        + d.imp
        + d.imp_generics
        + ") -> Self {\n        //safe because we're layout-compatible\n        unsafe { &mut *(t as *mut _ as *mut _) }\n    }\n}\nimpl "@
        + d.wrap_generics_complex
        + " From<&mut "@
        + d.name
        + d.wrap_generics_simple
        + "> for &mut "@
        + d.imp
        + d.imp_generics
        + " "@
        + d.where_clause
        + " {\n    fn from(t: &mut "@
        + d.name
        + d.wrap_generics_simple
        + ") -> Self {\n        //transmute, since the wrapper is not known to implement the payload's trait\n        unsafe { std::mem::transmute(t) }\n    }\n}\n"@
}

fn unsized_refs(d: &BoilParse) -> (r: String)
    ensures
        r@ == spec_unsized_refs(d@),
{
    let mut r = String::from_str("impl ");
    r.append(d.wrap_generics_complex.as_str());
    r.append(" From<&");
    r.append(d.imp.as_str());
    r.append(d.imp_generics.as_str());
    r.append("> for &");
    r.append(d.name.as_str());
    r.append(d.wrap_generics_simple.as_str());
    r.append(" ");
    r.append(d.where_clause.as_str());
    r.append(" {\n    fn from(t: &");
    r.append(d.imp.as_str());
    r.append(d.imp_generics.as_str());
    r.append(") -> Self {\n        //safe because we're layout-compatible\n        unsafe { &*(t as *const _ as *const _) }\n    }\n}\nimpl ");
    r.append(d.wrap_generics_complex.as_str());
    r.append(" From<&");
    r.append(d.name.as_str());
    r.append(d.wrap_generics_simple.as_str());
    r.append("> for &");
    r.append(d.imp.as_str());
    r.append(d.imp_generics.as_str());
    r.append(" ");
    r.append(d.where_clause.as_str());
    r.append(" {\n    fn from(t: &");
    r.append(d.name.as_str());
    r.append(d.wrap_generics_simple.as_str());
    r.append(") -> Self {\n        //transmute, since the wrapper is not known to implement the payload's trait\n        unsafe { std::mem::transmute(t) }\n    }\n}\nimpl ");
    r.append(d.wrap_generics_complex.as_str());
    r.append(" From<&mut ");
    r.append(d.imp.as_str());
    r.append(d.imp_generics.as_str());
    r.append("> for &mut ");
    r.append(d.name.as_str());
    r.append(d.wrap_generics_simple.as_str());
    r.append(" ");
    r.append(d.where_clause.as_str());
    r.append(" {\n    fn from(t: &mut ");
    r.append(d.imp.as_str());
    r.append(d.imp_generics.as_str());
    r.append(") -> Self {\n        //safe because we're layout-compatible\n        unsafe { &mut *(t as *mut _ as *mut _) }\n    }\n}\nimpl ");
    r.append(d.wrap_generics_complex.as_str());
    r.append(" From<&mut ");
    r.append(d.name.as_str());
    r.append(d.wrap_generics_simple.as_str());
    r.append("> for &mut ");
    r.append(d.imp.as_str());
    r.append(d.imp_generics.as_str());
    r.append(" ");
    r.append(d.where_clause.as_str());
    r.append(" {\n    fn from(t: &mut ");
    r.append(d.name.as_str());
    r.append(d.wrap_generics_simple.as_str());
    r.append(") -> Self {\n        //transmute, since the wrapper is not known to implement the payload's trait\n        unsafe { std::mem::transmute(t) }\n    }\n}\n");
    r
}

/// Heap-allocation projections for an unsized payload.
pub open spec fn spec_unsized_box(d: DeclView) -> Seq<char> {
    "impl "@
        + d.wrap_generics_complex
        + " From<Box<"@
        + d.imp
        + d.imp_generics
        + ">> for Box<"@
        + d.name
        + d.wrap_generics_simple
        + "> "@
        + d.where_clause
        + " {\n    fn from(t: Box<"@
        + d.imp
        + d.imp_generics
        + ">) -> Self {\n        let f = Box::into_raw(t) as *mut "@
        + d.name
        + d.wrap_generics_simple
        + ";\n        //safe because we're layout-compatible\n        unsafe { Box::from_raw(f) }\n    }\n}\nimpl "@
        + d.wrap_generics_complex
        + " From<Box<"@
        + d.name
        + d.wrap_generics_simple
        + ">> for Box<"@
        + d.imp
        + d.imp_generics
        + "> "@
        + d.where_clause
        + " {\n    fn from(t: Box<"@
        + d.name
        + d.wrap_generics_simple
        + ">) -> Self {\n        let f = Box::into_raw(t);\n        unsafe {\n            let g: *mut "@
        + d.imp
        + d.imp_generics
        + " = std::mem::transmute(f);\n            Box::from_raw(g)\n        }\n    }\n}\n"@
}

fn unsized_box(d: &BoilParse) -> (r: String)
    ensures
        r@ == spec_unsized_box(d@),
{
    let mut r = String::from_str("impl ");
    r.append(d.wrap_generics_complex.as_str());
    r.append(" From<Box<");
    r.append(d.imp.as_str());
    r.append(d.imp_generics.as_str());
    r.append(">> for Box<");
    r.append(d.name.as_str());
    r.append(d.wrap_generics_simple.as_str());
    r.append("> ");
    r.append(d.where_clause.as_str());
    r.append(" {\n    fn from(t: Box<");
    r.append(d.imp.as_str());
    r.append(d.imp_generics.as_str());
    r.append(">) -> Self {\n        let f = Box::into_raw(t) as *mut ");
    r.append(d.name.as_str());
    r.append(d.wrap_generics_simple.as_str());
    r.append(";\n        //safe because we're layout-compatible\n        unsafe { Box::from_raw(f) }\n    }\n}\nimpl ");
    r.append(d.wrap_generics_complex.as_str());
    r.append(" From<Box<");
    r.append(d.name.as_str());
    r.append(d.wrap_generics_simple.as_str());
    r.append(">> for Box<");
    r.append(d.imp.as_str());
    r.append(d.imp_generics.as_str());
    r.append("> ");
    r.append(d.where_clause.as_str());
    r.append(" {\n    fn from(t: Box<");
    r.append(d.name.as_str());
    r.append(d.wrap_generics_simple.as_str());
    r.append(">) -> Self {\n        let f = Box::into_raw(t);\n        unsafe {\n            let g: *mut ");
    r.append(d.imp.as_str());
    r.append(d.imp_generics.as_str());
    r.append(" = std::mem::transmute(f);\n            Box::from_raw(g)\n        }\n    }\n}\n");
    r
}

/// Pinned-reference projections for an unsized payload.
pub open spec fn spec_unsized_pin(d: DeclView) -> Seq<char> {
    "impl "@
        + d.wrap_generics_complex
        + " From<core::pin::Pin<&"@
        + d.imp
        + d.imp_generics
        + ">> for core::pin::Pin<&"@
        + d.name
        + d.wrap_generics_simple
        + "> "@
        + d.where_clause
        + " {\n    fn from(t: core::pin::Pin<&"@
        + d.imp
        + d.imp_generics
        + ">) -> Self {\n        //safe because we're layout-compatible\n        unsafe {\n            let f = core::pin::Pin::into_inner_unchecked(t) as &_ as *const _ as *const "@
        + d.name
        + d.wrap_generics_simple
        + ";\n            core::pin::Pin::new_unchecked(&*f)\n        }\n    }\n}\nimpl "@
        + d.wrap_generics_complex
        + " From<core::pin::Pin<&mut "@
        + d.imp
        + d.imp_generics
        + ">> for core::pin::Pin<&mut "@
        + d.name
        + d.wrap_generics_simple
        + "> "@
        + d.where_clause
        + " {\n    fn from(t: core::pin::Pin<&mut "@
        + d.imp
        + d.imp_generics
        + ">) -> Self {\n        //safe because we're layout-compatible\n        unsafe {\n            let f = core::pin::Pin::into_inner_unchecked(t) as &mut _ as *mut _ as *mut "@
        + d.name
        + d.wrap_generics_simple
        + ";\n            core::pin::Pin::new_unchecked(&mut *f)\n        }\n    }\n}\nimpl "@
        + d.wrap_generics_complex
        + " From<core::pin::Pin<&"@
        + d.name
        + d.wrap_generics_simple
        + ">> for core::pin::Pin<&"@
        + d.imp
        + d.imp_generics
        + "> "@
        + d.where_clause
        + " {\n    fn from(t: core::pin::Pin<&"@
        + d.name
        + d.wrap_generics_simple
        + ">) -> Self {\n        //safe because we're layout-compatible\n        unsafe {\n            let f = core::pin::Pin::into_inner_unchecked(t);\n            //transmute, since the wrapper is not known to implement the payload's trait\n            let g = std::mem::transmute(f);\n            core::pin::Pin::new_unchecked(g)\n        }\n    }\n}\nimpl "@
        + d.wrap_generics_complex
        + " From<core::pin::Pin<&mut "@
        + d.name
        + d.wrap_generics_simple
        + ">> for core::pin::Pin<&mut "@
        + d.imp
        + d.imp_generics
        + "> "@
        + d.where_clause
        + " {\n    fn from(t: core::pin::Pin<&mut "@
        + d.name
        + d.wrap_generics_simple
        + ">) -> Self {\n        //safe because we're layout-compatible\n        unsafe {\n            let f = core::pin::Pin::into_inner_unchecked(t);\n            //transmute, since the wrapper is not known to implement the payload's trait\n            let g = std::mem::transmute(f);\n            core::pin::Pin::new_unchecked(g)\n        }\n    }\n}\n"@
}

fn unsized_pin(d: &BoilParse) -> (r: String)
    ensures
        r@ == spec_unsized_pin(d@),
{
    let mut r = String::from_str("impl ");
    r.append(d.wrap_generics_complex.as_str());
    r.append(" From<core::pin::Pin<&");
    r.append(d.imp.as_str());
    r.append(d.imp_generics.as_str());
    r.append(">> for core::pin::Pin<&");
    r.append(d.name.as_str());
    r.append(d.wrap_generics_simple.as_str());
    r.append("> ");
    r.append(d.where_clause.as_str());
    r.append(" {\n    fn from(t: core::pin::Pin<&");
    r.append(d.imp.as_str());
    r.append(d.imp_generics.as_str());
    r.append(">) -> Self {\n        //safe because we're layout-compatible\n        unsafe {\n            let f = core::pin::Pin::into_inner_unchecked(t) as &_ as *const _ as *const ");
    r.append(d.name.as_str());
    r.append(d.wrap_generics_simple.as_str());
    r.append(";\n            core::pin::Pin::new_unchecked(&*f)\n        }\n    }\n}\nimpl ");
    r.append(d.wrap_generics_complex.as_str());
    r.append(" From<core::pin::Pin<&mut ");
    r.append(d.imp.as_str());
    r.append(d.imp_generics.as_str());
    r.append(">> for core::pin::Pin<&mut ");
    r.append(d.name.as_str());
    r.append(d.wrap_generics_simple.as_str());
    r.append("> ");
    r.append(d.where_clause.as_str());
    r.append(" {\n    fn from(t: core::pin::Pin<&mut ");
    r.append(d.imp.as_str());
    r.append(d.imp_generics.as_str());
    r.append(">) -> Self {\n        //safe because we're layout-compatible\n        unsafe {\n            let f = core::pin::Pin::into_inner_unchecked(t) as &mut _ as *mut _ as *mut ");
    r.append(d.name.as_str());
    r.append(d.wrap_generics_simple.as_str());
    r.append(";\n            core::pin::Pin::new_unchecked(&mut *f)\n        }\n    }\n}\nimpl ");
    r.append(d.wrap_generics_complex.as_str());
    r.append(" From<core::pin::Pin<&");
    r.append(d.name.as_str());
    r.append(d.wrap_generics_simple.as_str());
    r.append(">> for core::pin::Pin<&");
    r.append(d.imp.as_str());
    r.append(d.imp_generics.as_str());
    r.append("> ");
    r.append(d.where_clause.as_str());
    r.append(" {\n    fn from(t: core::pin::Pin<&");
    r.append(d.name.as_str());
    r.append(d.wrap_generics_simple.as_str());
    r.append(">) -> Self {\n        //safe because we're layout-compatible\n        unsafe {\n            let f = core::pin::Pin::into_inner_unchecked(t);\n            //transmute, since the wrapper is not known to implement the payload's trait\n            let g = std::mem::transmute(f);\n            core::pin::Pin::new_unchecked(g)\n        }\n    }\n}\nimpl ");
    r.append(d.wrap_generics_complex.as_str());
    r.append(" From<core::pin::Pin<&mut ");
    r.append(d.name.as_str());
    r.append(d.wrap_generics_simple.as_str());
    r.append(">> for core::pin::Pin<&mut ");
    r.append(d.imp.as_str());
    r.append(d.imp_generics.as_str());
    r.append("> ");
    r.append(d.where_clause.as_str());
    r.append(" {\n    fn from(t: core::pin::Pin<&mut ");
    r.append(d.name.as_str());
    r.append(d.wrap_generics_simple.as_str());
    r.append(">) -> Self {\n        //safe because we're layout-compatible\n        unsafe {\n            let f = core::pin::Pin::into_inner_unchecked(t);\n            //transmute, since the wrapper is not known to implement the payload's trait\n            let g = std::mem::transmute(f);\n            core::pin::Pin::new_unchecked(g)\n        }\n    }\n}\n");
    r
}

/// Result adaptation by immutable and by mutable reference, unsized mode only.
pub open spec fn spec_unsized_results(d: DeclView) -> Seq<char> {
    "impl "@
        + d.wrap_generics_complex
        + " "@
        + d.name
        + d.wrap_generics_simple
        + " "@
        + d.where_clause
        + " {\n    ///Converts a Result carrying a reference to the underlying type into a Result carrying a reference to the wrapper.\n    ///\n    ///If necessary, also converts the error between any types convertible with [Into].\n    "@
        + d.vis
        + " fn from_result<E: Into<ErrWrapped>, ErrWrapped>(r: Result<&"@
        + d.imp
        + d.imp_generics
        + ", E>) -> Result<&Self, ErrWrapped> {\n        r.map(|t| t.into()).map_err(|e| e.into())\n    }\n    ///Converts a Result carrying a reference to the wrapper into a Result carrying a reference to the underlying type.\n    ///\n    ///If necessary, also converts the error between any types convertible with [Into].\n    "@
        + d.vis
        + " fn into_result<E: Into<EUnwrapped>, EUnwrapped>(r: Result<&Self, E>) -> Result<&"@
        + d.imp
        + d.imp_generics
        + ", EUnwrapped> {\n        r.map(|t| t.into()).map_err(|e| e.into())\n    }\n    ///Converts a Result carrying a mutable reference to the underlying type into a Result carrying a mutable reference to the wrapper.\n    ///\n    ///If necessary, also converts the error between any types convertible with [Into].\n    "@
        + d.vis
        + " fn from_result_mut<E: Into<ErrWrapped>, ErrWrapped>(r: Result<&mut "@
        + d.imp
        + d.imp_generics
        + ", E>) -> Result<&mut Self, ErrWrapped> {\n        r.map(|t| t.into()).map_err(|e| e.into())\n    }\n    ///Converts a Result carrying a mutable reference to the wrapper into a Result carrying a mutable reference to the underlying type.\n    ///\n    ///If necessary, also converts the error between any types convertible with [Into].\n    "@
        + d.vis
        + " fn into_result_mut<E: Into<EUnwrapped>, EUnwrapped>(r: Result<&mut Self, E>) -> Result<&mut "@
        + d.imp
        + d.imp_generics
        + ", EUnwrapped> {\n        r.map(|t| t.into()).map_err(|e| e.into())\n    }\n}\n"@
}

fn unsized_results(d: &BoilParse) -> (r: String)
    ensures
        r@ == spec_unsized_results(d@),
{
    let mut r = String::from_str("impl ");
    r.append(d.wrap_generics_complex.as_str());
    r.append(" ");
    r.append(d.name.as_str());
    r.append(d.wrap_generics_simple.as_str());
    r.append(" ");
    r.append(d.where_clause.as_str());
    r.append(" {\n    ///Converts a Result carrying a reference to the underlying type into a Result carrying a reference to the wrapper.\n    ///\n    ///If necessary, also converts the error between any types convertible with [Into].\n    ");
    r.append(d.vis.as_str());
    r.append(" fn from_result<E: Into<ErrWrapped>, ErrWrapped>(r: Result<&");
    r.append(d.imp.as_str());
    r.append(d.imp_generics.as_str());
    r.append(", E>) -> Result<&Self, ErrWrapped> {\n        r.map(|t| t.into()).map_err(|e| e.into())\n    }\n    ///Converts a Result carrying a reference to the wrapper into a Result carrying a reference to the underlying type.\n    ///\n    ///If necessary, also converts the error between any types convertible with [Into].\n    ");
    r.append(d.vis.as_str());
    r.append(" fn into_result<E: Into<EUnwrapped>, EUnwrapped>(r: Result<&Self, E>) -> Result<&");
    r.append(d.imp.as_str());
    r.append(d.imp_generics.as_str());
    r.append(", EUnwrapped> {\n        r.map(|t| t.into()).map_err(|e| e.into())\n    }\n    ///Converts a Result carrying a mutable reference to the underlying type into a Result carrying a mutable reference to the wrapper.\n    ///\n    ///If necessary, also converts the error between any types convertible with [Into].\n    ");
    r.append(d.vis.as_str());
    r.append(" fn from_result_mut<E: Into<ErrWrapped>, ErrWrapped>(r: Result<&mut ");
    r.append(d.imp.as_str());
    r.append(d.imp_generics.as_str());
    r.append(", E>) -> Result<&mut Self, ErrWrapped> {\n        r.map(|t| t.into()).map_err(|e| e.into())\n    }\n    ///Converts a Result carrying a mutable reference to the wrapper into a Result carrying a mutable reference to the underlying type.\n    ///\n    ///If necessary, also converts the error between any types convertible with [Into].\n    ");
    r.append(d.vis.as_str());
    r.append(" fn into_result_mut<E: Into<EUnwrapped>, EUnwrapped>(r: Result<&mut Self, E>) -> Result<&mut ");
    r.append(d.imp.as_str());
    r.append(d.imp_generics.as_str());
    r.append(", EUnwrapped> {\n        r.map(|t| t.into()).map_err(|e| e.into())\n    }\n}\n");
    r
}

/// Forwarding of `Display` to the payload's own implementation.
pub open spec fn spec_display_impl(d: DeclView) -> Seq<char> {
    "impl "@
        + d.wrap_generics_complex
        + " std::fmt::Display for "@
        + d.name
        + d.wrap_generics_simple
        + " "@
        + d.where_clause
        + " {\n    fn fmt(&self, formatter: &mut std::fmt::Formatter<'_>) -> Result<(), std::fmt::Error> {\n        std::fmt::Display::fmt(&self.0, formatter)\n    }\n}\n"@
}

fn display_impl(d: &BoilParse) -> (r: String)
    ensures
        r@ == spec_display_impl(d@),
{
    let mut r = String::from_str("impl ");
    r.append(d.wrap_generics_complex.as_str());
    r.append(" std::fmt::Display for ");
    r.append(d.name.as_str());
    r.append(d.wrap_generics_simple.as_str());
    r.append(" ");
    r.append(d.where_clause.as_str());
    r.append(" {\n    fn fmt(&self, formatter: &mut std::fmt::Formatter<'_>) -> Result<(), std::fmt::Error> {\n        std::fmt::Display::fmt(&self.0, formatter)\n    }\n}\n");
    r
}

/// Forwarding of `Error`'s source, description and cause queries to the payload's own implementation.
pub open spec fn spec_error_impl(d: DeclView) -> Seq<char> {
    "impl "@
        + d.wrap_generics_complex
        + " std::error::Error for "@
        + d.name
        + d.wrap_generics_simple
        + " "@
        + d.where_clause
        + " {\n    fn source(&self) -> Option<&(dyn std::error::Error + 'static)> {\n        self.0.source()\n    }\n    fn description(&self) -> &str {\n        self.0.description()\n    }\n    fn cause(&self) -> Option<&dyn std::error::Error> {\n        self.0.cause()\n    }\n}\n"@
}

fn error_impl(d: &BoilParse) -> (r: String)
    ensures
        r@ == spec_error_impl(d@),
{
    let mut r = String::from_str("impl ");
    r.append(d.wrap_generics_complex.as_str());
    r.append(" std::error::Error for ");
    r.append(d.name.as_str());
    r.append(d.wrap_generics_simple.as_str());
    r.append(" ");
    r.append(d.where_clause.as_str());
    r.append(" {\n    fn source(&self) -> Option<&(dyn std::error::Error + 'static)> {\n        self.0.source()\n    }\n    fn description(&self) -> &str {\n        self.0.description()\n    }\n    fn cause(&self) -> Option<&dyn std::error::Error> {\n        self.0.cause()\n    }\n}\n");
    r
}

/// The full sized-mode catalog. Scoped mode omits the pointer-indirection
/// accessors; everything else is present in both modes.
pub open spec fn spec_implement(d: DeclView, scoped: bool) -> Seq<char> {
    let base = spec_sized_views(d) + spec_sized_owned(d) + spec_sized_box(d) + spec_sized_pin(d)
        + spec_shared_owners(d) + spec_sized_results(d);
    if scoped {
        base
    } else {
        base + spec_deref_accessors(d)
    }
}

/// The full unsized-mode catalog: no by-value conversions, reference views
/// carry explicit `'static` annotations, and result adaptation comes as
/// immutable and mutable reference pairs. Scoped mode omits the
/// pointer-indirection accessors.
pub open spec fn spec_implement_unsized(d: DeclView, scoped: bool) -> Seq<char> {
    let base = spec_unsized_views(d) + spec_unsized_refs(d) + spec_unsized_box(d)
        + spec_unsized_pin(d) + spec_shared_owners(d) + spec_unsized_results(d);
    if scoped {
        base
    } else {
        base + spec_deref_accessors(d)
    }
}

impl BoilParse {
    /// Renders the sized-mode catalog: view, ownership, box, pin and
    /// shared-ownership projections, result adaptation, and, unless `scoped`,
    /// the pointer-indirection accessors.
    pub fn implement(&self, scoped: bool) -> (r: String)
        ensures
            r@ == spec_implement(self@, scoped),
    {
        let mut r = sized_views(self);
        r.append(sized_owned(self).as_str());
        r.append(sized_box(self).as_str());
        r.append(sized_pin(self).as_str());
        r.append(shared_owners(self).as_str());
        r.append(sized_results(self).as_str());
        if !scoped {
            r.append(deref_accessors(self).as_str());
        }
        r
    }

    /// Renders the unsized-mode catalog, which omits every by-value
    /// conversion and splits result adaptation into reference pairs.
    pub fn implement_unsized(&self, scoped: bool) -> (r: String)
        ensures
            r@ == spec_implement_unsized(self@, scoped),
    {
        let mut r = unsized_views(self);
        r.append(unsized_refs(self).as_str());
        r.append(unsized_box(self).as_str());
        r.append(unsized_pin(self).as_str());
        r.append(shared_owners(self).as_str());
        r.append(unsized_results(self).as_str());
        if !scoped {
            r.append(deref_accessors(self).as_str());
        }
        r
    }

    /// Renders the `Display`-forwarding implementation only.
    pub fn implement_display(&self) -> (r: String)
        ensures
            r@ == spec_display_impl(self@),
    {
        display_impl(self)
    }

    /// Renders the `Error`-forwarding implementation only.
    pub fn implement_error(&self) -> (r: String)
        ensures
            r@ == spec_error_impl(self@),
    {
        error_impl(self)
    }
}

} // verus!
