//! The play queue: the tracks queued for playback and the position of the
//! one playing.
use vstd::prelude::*;
use crate::models::{Track, copy_opt_string};

verus! {

/// A queued track, with the album data that the player shows beside it.
pub struct QueueItem {
    pub track: Track,
    pub item_id: u64,
    pub album_title: String,
    pub artist_name: String,
    pub art_url: Option<String>,
    pub about: Option<String>,
    pub credits: Option<String>,
    pub release_date: Option<String>,
}

impl Clone for QueueItem {
    fn clone(&self) -> (r: Self)
        ensures
            r == *self,
    {
        QueueItem {
            track: self.track.clone(),
            item_id: self.item_id,
            album_title: self.album_title.clone(),
            artist_name: self.artist_name.clone(),
            art_url: copy_opt_string(&self.art_url),
            about: copy_opt_string(&self.about),
            credits: copy_opt_string(&self.credits),
            release_date: copy_opt_string(&self.release_date),
        }
    }
}

/// The queue: items in play order and the index of the current one.
pub struct PlayQueue {
    pub items: Vec<QueueItem>,
    pub current: Option<usize>,
}

/// The position that `replace_all` selects in a queue of `len` items.
pub open spec fn start_position(len: nat, start: nat) -> Option<usize> {
    if len == 0 {
        None
    } else if start < len {
        Some(start as usize)
    } else {
        Some((len - 1) as usize)
    }
}

/// The position after `next` in a queue of `len` items.
pub open spec fn next_position(len: nat, cur: Option<usize>) -> Option<usize> {
    match cur {
        Some(c) => if c + 1 < len { Some((c + 1) as usize) } else { cur },
        None => None,
    }
}

/// Whether `next` moves forward.
pub open spec fn next_moves(len: nat, cur: Option<usize>) -> bool {
    len > 0 && (cur matches Some(c) ==> c + 1 < len)
}

/// The position after `prev`.
pub open spec fn prev_position(cur: Option<usize>) -> Option<usize> {
    match cur {
        Some(c) => if c > 0 { Some((c - 1) as usize) } else { cur },
        None => None,
    }
}

/// The item at an optional position, if the position is inside the queue.
pub open spec fn item_at(items: Seq<QueueItem>, pos: Option<usize>) -> Option<QueueItem> {
    match pos {
        Some(i) => if i < items.len() { Some(items[i as int]) } else { None },
        None => None,
    }
}

impl PlayQueue {
    /// The current position, when there is one, lies inside the queue.
    pub open spec fn wf(&self) -> bool {
        self.current matches Some(c) ==> c < self.items@.len()
    }

    /// An empty queue.
    pub fn new() -> (q: Self)
        ensures
            q.items@.len() == 0,
            q.current is None,
            q.wf(),
    {
        PlayQueue { items: Vec::new(), current: None }
    }

    /// The item at the current position, if any.
    pub fn current_item(&self) -> (r: Option<&QueueItem>)
        ensures
            r matches Some(x) ==> item_at(self.items@, self.current) == Some(*x),
            r is None ==> item_at(self.items@, self.current) is None,
    {
        match self.current {
            Some(i) => if i < self.items.len() {
                Some(&self.items[i])
            } else {
                None
            },
            None => None,
        }
    }

    /// Replaces the queue and positions it at `start_index`, clamped to the
    /// last item.
    pub fn replace_all(&mut self, items: Vec<QueueItem>, start_index: usize)
        ensures
            final(self).items@ == items@,
            final(self).current == start_position(items@.len(), start_index as nat),
            final(self).wf(),
    {
        self.items = items;
        self.current = if self.items.len() == 0 {
            None
        } else if start_index < self.items.len() {
            Some(start_index)
        } else {
            Some(self.items.len() - 1)
        };
    }

    /// Moves to the following item and returns it. At the end of the queue,
    /// or with nothing current, the position stays and `None` comes back
    /// (with nothing current and a non-empty queue, the current item, that is
    /// none, is returned).
    pub fn next(&mut self) -> (r: Option<&QueueItem>)
        ensures
            final(self).items@ == old(self).items@,
            final(self).current == next_position(old(self).items@.len(), old(self).current),
            r matches Some(x) ==> next_moves(old(self).items@.len(), old(self).current)
                && item_at(final(self).items@, final(self).current) == Some(*x),
            r is None ==> !next_moves(old(self).items@.len(), old(self).current)
                || item_at(final(self).items@, final(self).current) is None,
    {
        let len = self.items.len();
        if len == 0 {
            return None;
        }
        if let Some(cur) = self.current {
            if cur < len - 1 {
                self.current = Some(cur + 1);
            } else {
                return None;
            }
        }
        self.current_item()
    }

    /// Moves to the preceding item (staying at the first) and returns the
    /// current item.
    pub fn prev(&mut self) -> (r: Option<&QueueItem>)
        ensures
            final(self).items@ == old(self).items@,
            final(self).current == if old(self).items@.len() == 0 {
                old(self).current
            } else {
                prev_position(old(self).current)
            },
            r matches Some(x) ==> old(self).items@.len() > 0 && item_at(final(self).items@, final(self).current) == Some(*x),
            r is None ==> old(self).items@.len() == 0 || item_at(final(self).items@, final(self).current) is None,
    {
        if self.items.len() == 0 {
            return None;
        }
        if let Some(cur) = self.current {
            if cur > 0 {
                self.current = Some(cur - 1);
            }
        }
        self.current_item()
    }
}

/// Every queue operation keeps the current position inside the queue: the
/// position that `replace_all` picks, and those that `next` and `prev` move to
/// from a position inside the queue.
pub proof fn law_position_stays_inside(len: nat, start: nat, cur: Option<usize>)
    requires
        cur matches Some(c) ==> c < len,
    ensures
        start_position(len, start) matches Some(p) ==> p < len,
        next_position(len, cur) matches Some(p) ==> p < len,
        prev_position(cur) matches Some(p) ==> p < len,
{
}

/// `prev` undoes a `next` that moved.
pub proof fn law_prev_undoes_next(len: usize, cur: Option<usize>)
    requires
        next_moves(len as nat, cur),
        cur is Some,
    ensures
        prev_position(next_position(len as nat, cur)) == cur,
{
}

/// `next` undoes a `prev` that moved.
pub proof fn law_next_undoes_prev(len: nat, cur: Option<usize>)
    requires
        cur matches Some(c) ==> 0 < c < len,
        cur is Some,
    ensures
        next_position(len, prev_position(cur)) == cur,
{
}

/// At the last item `next` neither moves nor returns an item; at the first,
/// `prev` stays.
pub proof fn law_ends_are_sticky(len: usize)
    requires
        len > 0,
    ensures
        next_position(len as nat, Some((len - 1) as usize)) == Some((len - 1) as usize),
        !next_moves(len as nat, Some((len - 1) as usize)),
        prev_position(Some(0usize)) == Some(0usize),
{
}

} // verus!
