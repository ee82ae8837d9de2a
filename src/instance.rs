use vstd::prelude::*;

use crate::command::{command_for, command_of, TiptapCommand, TiptapInstanceMsg};

verus! {

/// One call into the editor's API, addressed to the instance with the given id.
#[derive(Debug, Clone, PartialEq, Eq)]
pub enum TiptapCall {
    /// Create an instance on the mounted node, starting from `content`.
    Create { id: String, content: String, editable: bool },
    /// Tear the instance down.
    Destroy { id: String },
    /// Allow or forbid edits.
    SetEditable { id: String, editable: bool },
    /// Apply a command to the instance's current selection.
    Run { id: String, command: TiptapCommand },
}

/// The call that creates instance `id` from `content`, editable unless `disabled`.
pub open spec fn create_call(id: String, content: String, disabled: bool) -> TiptapCall {
    TiptapCall::Create { id, content, editable: !disabled }
}

/// Lifecycle of one editor instance as the host component sees it: the id that
/// the instance goes by, whether its node is mounted, and whether the instance
/// has been created.
///
/// Each event of the component is a method that updates the state and returns
/// the calls to make, in order. An instance is created exactly once per id,
/// and only once its node is mounted; commands and edit permissions reach it
/// only after it was created; it is destroyed when its id changes or the
/// component goes away.
pub struct TiptapInstanceState {
    id: Option<String>,
    mounted: bool,
    initialized: bool,
}

impl TiptapInstanceState {
    /// The id of the instance; `None` once the component was disposed.
    pub closed spec fn spec_id(self) -> Option<String> {
        self.id
    }

    /// Whether the node that hosts the editor is in the document.
    pub closed spec fn spec_mounted(self) -> bool {
        self.mounted
    }

    /// Whether the instance for the current id has been created.
    pub closed spec fn spec_initialized(self) -> bool {
        self.initialized
    }

    /// A created instance always has an id.
    pub open spec fn wf(self) -> bool {
        self.spec_initialized() ==> self.spec_id() is Some
    }

    /// The instance currently goes by an id whose characters are `id`.
    pub open spec fn has_id(self, id: Seq<char>) -> bool {
        self.spec_id() matches Some(cur) && cur@ == id
    }

    /// The calls that tear down what exists: a `Destroy` for a created instance.
    pub open spec fn teardown(self) -> Seq<TiptapCall> {
        if self.spec_initialized() {
            seq![TiptapCall::Destroy { id: self.spec_id().unwrap() }]
        } else {
            seq![]
        }
    }

    /// A component that starts out with instance id `id`, before its node is mounted.
    pub fn new(id: String) -> (r: Self)
        ensures
            r.wf(),
            r.spec_id() == Some(id),
            !r.spec_mounted(),
            !r.spec_initialized(),
    {
        TiptapInstanceState { id: Some(id), mounted: false, initialized: false }
    }

    pub fn id(&self) -> (r: Option<&String>)
        ensures
            r == match self.spec_id() {
                Some(id) => Some(&id),
                None => None::<&String>,
            },
    {
        self.id.as_ref()
    }

    pub fn is_mounted(&self) -> (r: bool)
        ensures
            r == self.spec_mounted(),
    {
        self.mounted
    }

    pub fn is_initialized(&self) -> (r: bool)
        ensures
            r == self.spec_initialized(),
    {
        self.initialized
    }

    /// The id changed to `id`. An unchanged id does nothing. Otherwise the
    /// created instance, if any, is destroyed, and a new one is created at once
    /// when the node is mounted, from `content`, editable unless `disabled`.
    pub fn set_id(&mut self, id: String, content: String, disabled: bool) -> (calls: Vec<
        TiptapCall,
    >)
        requires
            old(self).wf(),
        ensures
            final(self).wf(),
            old(self).has_id(id@) ==> *final(self) == *old(self) && calls@ == Seq::<
                TiptapCall,
            >::empty(),
            !old(self).has_id(id@) ==> {
                &&& final(self).spec_id() == Some(id)
                &&& final(self).spec_mounted() == old(self).spec_mounted()
                &&& final(self).spec_initialized() == old(self).spec_mounted()
                &&& calls@ == old(self).teardown() + if old(self).spec_mounted() {
                    seq![create_call(id, content, disabled)]
                } else {
                    Seq::<TiptapCall>::empty()
                }
            },
    {
        let same = match &self.id {
            Some(cur) => *cur == id,
            None => false,
        };
        let mut calls: Vec<TiptapCall> = Vec::new();
        if same {
            return calls;
        }
        if self.initialized {
            match &self.id {
                Some(cur) => calls.push(TiptapCall::Destroy { id: cur.clone() }),
                None => {},
            }
        }
        self.id = Some(id.clone());
        self.initialized = false;
        if self.mounted {
            calls.push(TiptapCall::Create { id, content, editable: !disabled });
            self.initialized = true;
        }
        calls
    }

    /// The node that hosts the editor was mounted (`mounted`) or removed. On
    /// mounting, an instance that was not created yet is created from `content`,
    /// editable unless `disabled`; nothing else happens.
    pub fn set_mounted(&mut self, mounted: bool, content: String, disabled: bool) -> (calls: Vec<
        TiptapCall,
    >)
        requires
            old(self).wf(),
        ensures
            final(self).wf(),
            final(self).spec_id() == old(self).spec_id(),
            final(self).spec_mounted() == mounted,
            if mounted && !old(self).spec_initialized() && old(self).spec_id() is Some {
                &&& final(self).spec_initialized()
                &&& calls@ == seq![create_call(old(self).spec_id().unwrap(), content, disabled)]
            } else {
                &&& final(self).spec_initialized() == old(self).spec_initialized()
                &&& calls@ == Seq::<TiptapCall>::empty()
            },
    {
        self.mounted = mounted;
        let mut calls: Vec<TiptapCall> = Vec::new();
        if mounted && !self.initialized {
            match &self.id {
                Some(cur) => {
                    calls.push(TiptapCall::Create { id: cur.clone(), content, editable: !disabled });
                    self.initialized = true;
                },
                None => {},
            }
        }
        calls
    }

    /// The application sent `msg`. Its command reaches a created instance and
    /// is dropped before creation; `Noop` does nothing.
    pub fn handle_msg(&self, msg: TiptapInstanceMsg) -> (calls: Vec<TiptapCall>)
        requires
            self.wf(),
        ensures
            calls@ == if self.spec_initialized() && command_of(msg) is Some {
                seq![
                    TiptapCall::Run {
                        id: self.spec_id().unwrap(),
                        command: command_of(msg).unwrap(),
                    },
                ]
            } else {
                Seq::<TiptapCall>::empty()
            },
    {
        let mut calls: Vec<TiptapCall> = Vec::new();
        if !self.initialized {
            return calls;
        }
        match (&self.id, command_for(msg)) {
            (Some(cur), Some(command)) => calls.push(TiptapCall::Run { id: cur.clone(), command }),
            _ => {},
        }
        calls
    }

    /// The disabled flag changed to `disabled`: a created instance becomes
    /// editable exactly when it is not disabled.
    pub fn set_disabled(&self, disabled: bool) -> (calls: Vec<TiptapCall>)
        requires
            self.wf(),
        ensures
            calls@ == if self.spec_initialized() {
                seq![TiptapCall::SetEditable { id: self.spec_id().unwrap(), editable: !disabled }]
            } else {
                Seq::<TiptapCall>::empty()
            },
    {
        let mut calls: Vec<TiptapCall> = Vec::new();
        if self.initialized {
            match &self.id {
                Some(cur) => calls.push(
                    TiptapCall::SetEditable { id: cur.clone(), editable: !disabled },
                ),
                None => {},
            }
        }
        calls
    }

    /// The component goes away: a created instance is destroyed, and the state
    /// keeps no id, so no later event reaches the editor.
    pub fn dispose(&mut self) -> (calls: Vec<TiptapCall>)
        requires
            old(self).wf(),
        ensures
            final(self).wf(),
            final(self).spec_id() is None,
            !final(self).spec_initialized(),
            final(self).spec_mounted() == old(self).spec_mounted(),
            calls@ == old(self).teardown(),
    {
        let mut calls: Vec<TiptapCall> = Vec::new();
        if self.initialized {
            match &self.id {
                Some(cur) => calls.push(TiptapCall::Destroy { id: cur.clone() }),
                None => {},
            }
        }
        self.id = None;
        self.initialized = false;
        calls
    }
}

} // verus!
