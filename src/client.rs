use vstd::prelude::*;

verus! {

/// How many events one backwards page asks for.
pub const PAGE_LIMIT: u32 = 20;

/// The sync and pagination tokens of a session.
pub struct SyncTokens {
    pub next_batch: Option<String>,
    pub last_scroll: Option<String>,
}

impl SyncTokens {
    pub fn new() -> (r: SyncTokens)
        ensures
            r.next_batch is None,
            r.last_scroll is None,
    {
        SyncTokens { next_batch: None, last_scroll: None }
    }

    /// The token of the latest sync, if there was one.
    pub fn sync_token(&self) -> (r: Option<String>)
        ensures
            r == self.next_batch,
    {
        match &self.next_batch {
            Some(t) => Some(t.clone()),
            None => None,
        }
    }

    /// Records the token that a sync handed back.
    pub fn set_sync_token(&mut self, token: Option<String>)
        ensures
            final(self).next_batch == token,
            final(self).last_scroll == old(self).last_scroll,
    {
        self.next_batch = token;
    }

    /// Where the next backwards page starts: where the last page ended, else
    /// at the latest sync; `None` before any sync.
    pub fn page_start(&self) -> (r: Option<String>)
        ensures
            r == match self.last_scroll {
                Some(s) => Some(s),
                None => self.next_batch,
            },
    {
        match &self.last_scroll {
            Some(s) => Some(s.clone()),
            None => self.sync_token(),
        }
    }

    /// Records where a backwards page ended.
    pub fn record_page_end(&mut self, end: String)
        ensures
            final(self).last_scroll == Some(end),
            final(self).next_batch == old(self).next_batch,
    {
        self.last_scroll = Some(end);
    }
}

} // verus!
