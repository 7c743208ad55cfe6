//! The application shell: the process-wide object that owns the current
//! window, registers the global actions, and decides what happens on each
//! lifecycle event.
//!
//! The shell never performs toolkit work itself. Each handler returns an
//! [`Effect`] naming what the front end must do next (present the window,
//! leave the main loop, show a dialog), and the front end performs it.

use vstd::prelude::*;

use crate::config;
use crate::window::AlexcadWindow;
use crate::window::Template;
use crate::window::TemplateError;

verus! {

/// Startup flags handed to the toolkit, kept as an opaque bit set.
#[derive(Clone, Copy, Debug, PartialEq, Eq, Structural)]
pub struct ApplicationFlags {
    pub bits: u32,
}

impl ApplicationFlags {
    /// No special startup behaviour requested.
    pub fn empty() -> (r: ApplicationFlags)
        ensures
            r.bits == 0,
    {
        ApplicationFlags { bits: 0 }
    }
}

/// The global actions the shell registers.
#[derive(Clone, Copy, Debug, PartialEq, Eq, Structural)]
pub enum ActionKind {
    Quit,
    About,
}

/// One entry of the application's action map: a name bound to an action.
#[derive(Clone, Debug, PartialEq)]
pub struct ActionEntry {
    pub name: String,
    pub kind: ActionKind,
}

/// A keyboard accelerator binding for a detailed action name.
#[derive(Clone, Debug, PartialEq)]
pub struct AccelBinding {
    pub action: String,
    pub accels: Vec<String>,
}

/// The modal informational dialog raised by the "about" action.
#[derive(Clone, Debug, PartialEq)]
pub struct AboutDialog {
    /// The id of the window the dialog is transient for.
    pub transient_for: u64,
    pub modal: bool,
    pub program_name: String,
    pub logo_icon_name: String,
    pub version: String,
    pub authors: Vec<String>,
    pub copyright: String,
}

/// What the front end must do after a handler ran: ask the compositor to
/// present the current window, leave the main loop, or show a dialog.
#[derive(Clone, Debug, PartialEq)]
pub enum Effect {
    Present,
    Quit,
    ShowAbout(AboutDialog),
}

/// The process-wide application object: its identity, its startup flags, the
/// layout template its windows are built from, the single current-window
/// slot, and the registered actions and accelerators.
///
/// The window slot is the only mutable state: empty until the first
/// activation, filled by it, emptied again when the toolkit reports that the
/// user closed the window. `windows_created` counts the window instances
/// constructed over the process's lifetime.
#[derive(Clone, Debug, PartialEq)]
pub struct AlexcadApplication {
    pub application_id: String,
    pub flags: ApplicationFlags,
    pub template: Template,
    pub window: Option<AlexcadWindow>,
    pub windows_created: u64,
    pub actions: Vec<ActionEntry>,
    pub accels: Vec<AccelBinding>,
}

/// Looks a name up in an action map, first entry with that name winning.
pub open spec fn spec_find_action(entries: Seq<ActionEntry>, name: Seq<char>) -> Option<ActionKind>
    decreases entries.len(),
{
    if entries.len() == 0 {
        None
    } else if entries[0].name@ == name {
        Some(entries[0].kind)
    } else {
        spec_find_action(entries.drop_first(), name)
    }
}

impl AlexcadApplication {
    /// The window the next activation would construct: the next instance id,
    /// owned by this application, with the template's children bound.
    pub open spec fn fresh_window(pre: Self) -> AlexcadWindow {
        AlexcadWindow {
            id: ((pre.windows_created + 1) as u64),
            application_id: pre.application_id,
            header_bar: pre.template.header_bar.unwrap(),
            label: pre.template.label.unwrap(),
        }
    }

    /// The state after one activation: an existing window is reused
    /// unchanged; otherwise, if the template is complete, one window is
    /// constructed; otherwise instantiation fails and nothing changes.
    pub open spec fn activated(pre: Self) -> Self {
        if pre.window is Some {
            pre
        } else if pre.template.complete() {
            Self {
                window: Some(Self::fresh_window(pre)),
                windows_created: ((pre.windows_created + 1) as u64),
                ..pre
            }
        } else {
            pre
        }
    }

    /// The state after the toolkit reports the current window closed.
    pub open spec fn window_closed(pre: Self) -> Self {
        Self { window: None, ..pre }
    }

    /// The dialog the "about" action raises over window `w`: modal, transient
    /// for `w`, and carrying the fixed program name, icon, version, authors
    /// and copyright line.
    pub open spec fn about_dialog_ok(w: AlexcadWindow, d: AboutDialog) -> bool {
        &&& d.transient_for == w.id
        &&& d.modal == true
        &&& d.program_name@ == "alexcad"@
        &&& d.logo_icon_name@ == "org.gnome.Example"@
        &&& d.version@ == config::spec_version()
        &&& d.authors@.len() == 1
        &&& d.authors@[0]@ == "Unknown"@
        &&& d.copyright@ == "\u{c2}\u{a9} 2023 Unknown"@
    }

    /// Constructs the application object: the given identity and flags, the
    /// template its windows will be built from, no window yet, and the two
    /// global actions registered with the quit accelerator bound.
    pub fn new(application_id: &str, flags: ApplicationFlags, template: Template) -> (r:
        AlexcadApplication)
        ensures
            r.application_id@ == application_id@,
            r.flags == flags,
            r.template == template,
            r.window is None,
            r.windows_created == 0,
            r.actions@.len() == 2,
            r.actions@[0].name@ == "quit"@,
            r.actions@[0].kind == ActionKind::Quit,
            r.actions@[1].name@ == "about"@,
            r.actions@[1].kind == ActionKind::About,
            r.accels@.len() == 1,
            r.accels@[0].action@ == "app.quit"@,
            r.accels@[0].accels@.len() == 1,
            r.accels@[0].accels@[0]@ == "<primary>q"@,
    {
        let mut app = AlexcadApplication {
            application_id: application_id.to_owned(),
            flags,
            template,
            window: None,
            windows_created: 0,
            actions: Vec::new(),
            accels: Vec::new(),
        };
        app.setup_gactions();
        let mut quit_accels: Vec<String> = Vec::new();
        quit_accels.push("<primary>q".to_owned());
        app.set_accels_for_action("app.quit".to_owned(), quit_accels);
        app
    }

    /// Registers the two global actions, "quit" and "about", in order.
    pub fn setup_gactions(&mut self)
        ensures
            final(self).actions@.len() == old(self).actions@.len() + 2,
            final(self).actions@ == old(self).actions@ + final(self).actions@.skip(
                old(self).actions@.len() as int,
            ),
            final(self).actions@[old(self).actions@.len() as int].name@ == "quit"@,
            final(self).actions@[old(self).actions@.len() as int].kind == ActionKind::Quit,
            final(self).actions@[old(self).actions@.len() as int + 1].name@ == "about"@,
            final(self).actions@[old(self).actions@.len() as int + 1].kind == ActionKind::About,
            final(self).application_id == old(self).application_id,
            final(self).flags == old(self).flags,
            final(self).template == old(self).template,
            final(self).window == old(self).window,
            final(self).windows_created == old(self).windows_created,
            final(self).accels == old(self).accels,
    {
        let quit_action = ActionEntry { name: "quit".to_owned(), kind: ActionKind::Quit };
        let about_action = ActionEntry { name: "about".to_owned(), kind: ActionKind::About };
        let mut entries: Vec<ActionEntry> = Vec::new();
        entries.push(quit_action);
        entries.push(about_action);
        self.add_action_entries(entries);
    }

    /// Appends entries to the application's action map.
    pub fn add_action_entries(&mut self, entries: Vec<ActionEntry>)
        ensures
            final(self).actions@ == old(self).actions@ + entries@,
            final(self).application_id == old(self).application_id,
            final(self).flags == old(self).flags,
            final(self).template == old(self).template,
            final(self).window == old(self).window,
            final(self).windows_created == old(self).windows_created,
            final(self).accels == old(self).accels,
    {
        let mut entries = entries;
        self.actions.append(&mut entries);
    }

    /// Binds the accelerators to the detailed action name.
    pub fn set_accels_for_action(&mut self, action: String, accels: Vec<String>)
        ensures
            final(self).accels@ == old(self).accels@.push(
                (AccelBinding { action: action, accels: accels }),
            ),
            final(self).application_id == old(self).application_id,
            final(self).flags == old(self).flags,
            final(self).template == old(self).template,
            final(self).window == old(self).window,
            final(self).windows_created == old(self).windows_created,
            final(self).actions == old(self).actions,
    {
        self.accels.push(AccelBinding { action, accels });
    }

    /// Looks an action up by name in the registered action map.
    pub fn find_action(&self, name: &String) -> (r: Option<ActionKind>)
        ensures
            r == spec_find_action(self.actions@, name@),
    {
        let mut i: usize = 0;
        proof {
            assert(self.actions@.skip(0) =~= self.actions@);
        }
        while i < self.actions.len()
            invariant
                i <= self.actions@.len(),
                spec_find_action(self.actions@, name@) == spec_find_action(
                    self.actions@.skip(i as int),
                    name@,
                ),
            decreases self.actions@.len() - i,
        {
            if self.actions[i].name == *name {
                assert(self.actions@.skip(i as int)[0] == self.actions@[i as int]);
                return Some(self.actions[i].kind);
            }
            proof {
                assert(self.actions@.skip(i as int)[0] == self.actions@[i as int]);
                assert(self.actions@.skip(i as int).drop_first() =~= self.actions@.skip(
                    i as int + 1,
                ));
            }
            i = i + 1;
        }
        proof {
            assert(self.actions@.skip(i as int) =~= Seq::<ActionEntry>::empty());
        }
        None
    }

    /// The activation callback: reuses the current window, or constructs one
    /// if none exists, and asks the front end to present it. Fails exactly
    /// when a window would have to be constructed but the template lacks a
    /// named child; that failure is fatal at startup and leaves the state
    /// unchanged.
    pub fn activate(&mut self) -> (r: Result<Effect, TemplateError>)
        requires
            old(self).windows_created < u64::MAX,
        ensures
            *final(self) == Self::activated(*old(self)),
            r is Ok <==> (old(self).window is Some || old(self).template.complete()),
            r matches Ok(e) ==> e == Effect::Present,
            r matches Err(e) ==> (e is MissingHeaderBar <==> !(old(self).template.header_bar
                matches Some(h) && h.wf())),
    {
        if self.window.is_none() {
            let id = self.windows_created + 1;
            let w = match AlexcadWindow::new(id, &self.application_id, &self.template) {
                Ok(w) => w,
                Err(e) => {
                    return Err(e);
                },
            };
            self.window = Some(w);
            self.windows_created = id;
        }
        Ok(Effect::Present)
    }

    /// The toolkit's teardown notification: the user closed the window, so
    /// the slot empties; nothing else changes.
    pub fn on_window_closed(&mut self)
        ensures
            *final(self) == Self::window_closed(*old(self)),
    {
        self.window = None;
    }

    /// The "quit" action: asks the front end to leave the main loop. It
    /// yields exactly that effect and, holding the application immutably,
    /// neither empties the window slot nor raises any window teardown of its
    /// own; the toolkit's teardown is reported separately through
    /// [`Self::on_window_closed`].
    pub fn quit(&self) -> (r: Effect)
        ensures
            r == Effect::Quit,
    {
        Effect::Quit
    }

    /// The "about" action: raises the modal about dialog over the current
    /// window. Whether the action can fire before any window exists is an
    /// open policy question; the policy chosen here is an explicit
    /// precondition, not a silent no-op, so the missing-window case is ruled
    /// out rather than asserted to succeed.
    pub fn show_about(&self) -> (d: AboutDialog)
        requires
            self.window is Some,
        ensures
            Self::about_dialog_ok(self.window.unwrap(), d),
    {
        let transient_for = self.window.as_ref().unwrap().id;
        let mut authors: Vec<String> = Vec::new();
        authors.push("Unknown".to_owned());
        AboutDialog {
            transient_for,
            modal: true,
            program_name: "alexcad".to_owned(),
            logo_icon_name: "org.gnome.Example".to_owned(),
            version: config::version().to_owned(),
            authors,
            copyright: "\u{c2}\u{a9} 2023 Unknown".to_owned(),
        }
    }

    /// Runs the named global action: "quit" yields exactly the quit effect;
    /// "about" raises the dialog over the current window, which must exist.
    pub fn dispatch(&self, kind: ActionKind) -> (r: Effect)
        requires
            kind is About ==> self.window is Some,
        ensures
            kind is Quit ==> r == Effect::Quit,
            kind is About ==> (r matches Effect::ShowAbout(d) && Self::about_dialog_ok(
                self.window.unwrap(),
                d,
            )),
    {
        match kind {
            ActionKind::Quit => self.quit(),
            ActionKind::About => Effect::ShowAbout(self.show_about()),
        }
    }
}

/// Activation is idempotent: activating an already-activated application
/// changes nothing, so two activations in succession construct exactly one
/// window instance, never two.
pub proof fn lemma_activation_idempotent(app: AlexcadApplication)
    requires
        app.windows_created < u64::MAX,
    ensures
        AlexcadApplication::activated(AlexcadApplication::activated(app))
            == AlexcadApplication::activated(app),
        app.window is None && app.template.complete()
            ==> AlexcadApplication::activated(AlexcadApplication::activated(app)).windows_created
            == app.windows_created + 1,
{
}

} // verus!
