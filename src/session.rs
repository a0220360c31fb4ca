use vstd::prelude::*;
use crate::auth::{AuthAction, installs};

verus! {

/// The state shared by the workflows: the authenticated connection, if
/// any, and the file selected for upload, if any. Each slot is set
/// independently of the other. Readers take copies out, so that nothing
/// borrowed from the session is held while a remote call is in flight.
/// At most one upload runs at a time: an upload takes the selected path
/// when it begins, and no other begins until it is finished.
pub struct SessionState<H> {
    client: Option<H>,
    selected_file: Option<String>,
    upload_in_flight: bool,
}

impl<H> SessionState<H> {
    /// Neither a connection nor a file.
    pub fn new() -> (s: SessionState<H>)
        ensures
            s.client_slot() is None,
            s.selected() is None,
            !s.in_flight(),
    {
        SessionState { client: None, selected_file: None, upload_in_flight: false }
    }

    pub closed spec fn in_flight(&self) -> bool {
        self.upload_in_flight
    }

    pub closed spec fn client_slot(&self) -> Option<H> {
        self.client
    }

    pub closed spec fn selected(&self) -> Option<Seq<char>> {
        match self.selected_file {
            Some(p) => Some(p@),
            None => None,
        }
    }

    /// Whether an authenticated connection is installed.
    pub fn has_client(&self) -> (b: bool)
        ensures
            b == (self.client_slot() is Some),
    {
        self.client.is_some()
    }

    /// The installed connection, if any.
    pub fn client(&self) -> (c: Option<&H>)
        ensures
            c matches Some(h) ==> self.client_slot() == Some(*h),
            c is None <==> self.client_slot() is None,
    {
        match &self.client {
            Some(h) => Some(h),
            None => None,
        }
    }

    /// Replaces the installed connection.
    pub fn install_client(&mut self, client: H)
        ensures
            final(self).client_slot() == Some(client),
            final(self).selected() == old(self).selected(),
            final(self).in_flight() == old(self).in_flight(),
    {
        self.client = Some(client);
    }

    /// Records the file chosen for the next upload, replacing any earlier
    /// choice.
    pub fn select_file(&mut self, path: String)
        ensures
            final(self).selected() == Some(path@),
            final(self).client_slot() == old(self).client_slot(),
            final(self).in_flight() == old(self).in_flight(),
    {
        self.selected_file = Some(path);
    }

    /// A copy of the selected file's path, taken when an upload is
    /// triggered: later selections do not change the upload in flight.
    pub fn selected_file(&self) -> (p: Option<String>)
        ensures
            p matches Some(s) ==> self.selected() == Some(s@),
            p is None <==> self.selected() is None,
    {
        match &self.selected_file {
            Some(s) => Some(s.clone()),
            None => None,
        }
    }

    /// Begins an upload: when a connection is installed, a file is
    /// selected and no upload is in flight, returns a copy of the selected
    /// path and marks an upload as in flight; otherwise returns `None` and
    /// changes nothing.
    pub fn begin_upload(&mut self) -> (p: Option<String>)
        ensures
            p is Some <==> (!old(self).in_flight() && old(self).selected() is Some
                && old(self).client_slot() is Some),
            p matches Some(s) ==> Some(s@) == old(self).selected() && final(self).in_flight(),
            p is None ==> final(self).in_flight() == old(self).in_flight(),
            final(self).selected() == old(self).selected(),
            final(self).client_slot() == old(self).client_slot(),
    {
        if self.upload_in_flight || self.client.is_none() {
            return None;
        }
        match &self.selected_file {
            Some(s) => {
                let p = s.clone();
                self.upload_in_flight = true;
                Some(p)
            },
            None => None,
        }
    }

    /// Marks the upload in flight as finished.
    pub fn finish_upload(&mut self)
        ensures
            !final(self).in_flight(),
            final(self).selected() == old(self).selected(),
            final(self).client_slot() == old(self).client_slot(),
    {
        self.upload_in_flight = false;
    }

    /// Applies the outcome of an authentication step: `client`, the
    /// connection of the attempt, is installed when `actions` say so and is
    /// dropped otherwise. Returns whether it was installed.
    pub fn settle_auth(&mut self, actions: &Vec<AuthAction>, client: H) -> (installed: bool)
        ensures
            installed == installs(actions@),
            installed ==> final(self).client_slot() == Some(client),
            !installed ==> final(self).client_slot() == old(self).client_slot(),
            final(self).selected() == old(self).selected(),
            final(self).in_flight() == old(self).in_flight(),
    {
        let mut i: usize = 0;
        let mut found = false;
        while i < actions.len()
            invariant
                i <= actions@.len(),
                found == exists|j: int| 0 <= j < i && actions@[j] is Install,
            decreases actions@.len() - i,
        {
            if matches!(actions[i], AuthAction::Install) {
                found = true;
            }
            i = i + 1;
        }
        if found {
            self.client = Some(client);
        }
        found
    }
}

} // verus!
