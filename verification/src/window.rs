//! The window shell: a single top-level window whose two named children, a
//! header bar and a label, are bound from an externally authored layout
//! template.
//!
//! Widgets are modelled as non-owning handles: the toolkit's widget tree owns
//! the widgets themselves, and a handle of `0` stands for a null reference.

use vstd::prelude::*;

verus! {

/// A non-owning handle to a header-bar widget in the toolkit's widget tree.
#[derive(Clone, Copy, Debug, PartialEq, Eq, Structural)]
pub struct HeaderBar {
    pub handle: u64,
}

impl HeaderBar {
    /// A live handle: it refers to a widget, not to null.
    pub open spec fn wf(&self) -> bool {
        self.handle != 0
    }
}

/// A non-owning handle to a label widget in the toolkit's widget tree.
#[derive(Clone, Copy, Debug, PartialEq, Eq, Structural)]
pub struct Label {
    pub handle: u64,
}

impl Label {
    /// A live handle: it refers to a widget, not to null.
    pub open spec fn wf(&self) -> bool {
        self.handle != 0
    }
}

/// An externally authored layout description, already loaded from its
/// resource path. It declares the two children a window binds by name;
/// a missing or null child means the resource did not define it.
#[derive(Clone, Debug, PartialEq)]
pub struct Template {
    pub resource_path: String,
    pub header_bar: Option<HeaderBar>,
    pub label: Option<Label>,
}

impl Template {
    /// Both named children are present and live.
    pub open spec fn complete(&self) -> bool {
        &&& self.header_bar matches Some(h) && h.wf()
        &&& self.label matches Some(l) && l.wf()
    }
}

/// Why template instantiation failed: a named child could not be bound.
/// Such a failure is fatal at startup; nothing recovers from it.
#[derive(Clone, Copy, Debug, PartialEq, Eq, Structural)]
pub enum TemplateError {
    MissingHeaderBar,
    MissingLabel,
}

/// The single top-level window: an identity, the owning application, and the
/// two children bound from the template.
#[derive(Clone, Debug, PartialEq)]
pub struct AlexcadWindow {
    /// Distinguishes window instances created over the process's lifetime.
    pub id: u64,
    /// The identifier of the owning application.
    pub application_id: String,
    pub header_bar: HeaderBar,
    pub label: Label,
}

impl AlexcadWindow {
    /// Both bound children are live references.
    pub open spec fn wf(&self) -> bool {
        self.header_bar.wf() && self.label.wf()
    }

    /// Constructs a window for the owning application, binding the named
    /// children from the template. Fails, fatally for startup, exactly when
    /// the template lacks a child; a constructed window always holds live
    /// references to both children.
    pub fn new(id: u64, application_id: &String, template: &Template) -> (r: Result<
        AlexcadWindow,
        TemplateError,
    >)
        ensures
            r matches Ok(w) ==> {
                &&& template.complete()
                &&& w.id == id
                &&& w.application_id == *application_id
                &&& w.header_bar == template.header_bar.unwrap()
                &&& w.label == template.label.unwrap()
                &&& w.wf()
            },
            r matches Err(e) ==> {
                &&& !template.complete()
                &&& (e is MissingHeaderBar <==> !(template.header_bar matches Some(h) && h.wf()))
                &&& (e is MissingLabel <==> (template.header_bar matches Some(h) && h.wf())
                    && !(template.label matches Some(l) && l.wf()))
            },
    {
        let header_bar = match template.header_bar {
            Some(h) => {
                if h.handle == 0 {
                    return Err(TemplateError::MissingHeaderBar);
                }
                h
            },
            None => {
                return Err(TemplateError::MissingHeaderBar);
            },
        };
        let label = match template.label {
            Some(l) => {
                if l.handle == 0 {
                    return Err(TemplateError::MissingLabel);
                }
                l
            },
            None => {
                return Err(TemplateError::MissingLabel);
            },
        };
        Ok(AlexcadWindow { id, application_id: application_id.clone(), header_bar, label })
    }
}

} // verus!
