use vstd::prelude::*;

verus! {

/// Which task of the list is in focus: a position in the list as it was last
/// read, or none. The position says nothing of the task's number.
#[derive(Clone, Copy, Debug, PartialEq, Eq)]
pub struct Selection {
    pub index: Option<usize>,
}

impl Selection {
    /// What the selection must be for a list of `len` tasks: some task of
    /// the list where there is one, and none where the list is empty.
    pub open spec fn valid_for(self, len: nat) -> bool {
        match self.index {
            Some(index) => index < len,
            None => len == 0,
        }
    }

    /// The position that the selection picks in a list of `len` tasks. A
    /// selection past the end of the list picks nothing.
    pub open spec fn addressed(self, len: nat) -> Option<int> {
        match self.index {
            Some(index) => if index < len {
                Some(index as int)
            } else {
                None
            },
            None => None,
        }
    }

    /// The selection made fit for a list of `len` tasks: a position in the
    /// list is kept, one past its end becomes the last, and where nothing
    /// was selected the first task is.
    pub open spec fn revalidated(self, len: nat) -> Selection {
        if len == 0 {
            Selection { index: None }
        } else {
            match self.index {
                Some(index) => if index < len {
                    self
                } else {
                    Selection { index: Some((len - 1) as usize) }
                },
                None => Selection { index: Some(0) },
            }
        }
    }

    /// The selection one task down, from the last task on to the first. With
    /// no task in the list, or none selected, it stays as it is.
    pub open spec fn moved_down(self, len: nat) -> Selection {
        match self.index {
            Some(index) => if len == 0 {
                self
            } else if index >= len - 1 {
                Selection { index: Some(0) }
            } else {
                Selection { index: Some((index + 1) as usize) }
            },
            None => self,
        }
    }

    /// The selection one task up, from the first task on to the last. With
    /// no task in the list, or none selected, it stays as it is.
    pub open spec fn moved_up(self, len: nat) -> Selection {
        match self.index {
            Some(index) => if len == 0 {
                self
            } else if index > 0 {
                Selection { index: Some((index - 1) as usize) }
            } else {
                Selection { index: Some((len - 1) as usize) }
            },
            None => self,
        }
    }

    /// The selection after the task it picked was taken out of a list of
    /// `len` tasks: one task up, or still the first; none where that was the
    /// only task. A selection that picked nothing stays as it is.
    pub open spec fn after_removal(self, len: nat) -> Selection {
        match self.addressed(len) {
            Some(index) => if index > 0 {
                Selection { index: Some((index - 1) as usize) }
            } else if len > 1 {
                Selection { index: Some(0) }
            } else {
                Selection { index: None }
            },
            None => self,
        }
    }

    /// The selection before any list was read: nothing is selected.
    pub fn new() -> (selection: Selection)
        ensures
            selection.index is None,
    {
        Selection { index: None }
    }

    pub fn selected(&self) -> (index: Option<usize>)
        ensures
            index == self.index,
    {
        self.index
    }

    pub fn select(&mut self, index: Option<usize>)
        ensures
            final(self).index == index,
    {
        self.index = index;
    }

    /// Makes the selection fit for a list of `len` tasks.
    pub fn revalidate(&mut self, len: usize)
        ensures
            *final(self) == old(self).revalidated(len as nat),
            final(self).valid_for(len as nat),
            old(self).valid_for(len as nat) ==> *final(self) == *old(self),
    {
        if len == 0 {
            self.index = None;
        } else {
            match self.index {
                Some(index) => {
                    if index >= len {
                        self.index = Some(len - 1);
                    }
                },
                None => {
                    self.index = Some(0);
                },
            }
        }
    }

    /// Moves the selection one task down in a list of `len` tasks.
    pub fn move_down(&mut self, len: usize)
        ensures
            *final(self) == old(self).moved_down(len as nat),
            old(self).valid_for(len as nat) ==> final(self).valid_for(len as nat),
    {
        if let Some(selected) = self.index {
            if len > 0 {
                if selected >= len - 1 {
                    self.index = Some(0);
                } else {
                    self.index = Some(selected + 1);
                }
            }
        }
    }

    /// Moves the selection one task up in a list of `len` tasks.
    pub fn move_up(&mut self, len: usize)
        ensures
            *final(self) == old(self).moved_up(len as nat),
            old(self).valid_for(len as nat) ==> final(self).valid_for(len as nat),
    {
        if let Some(selected) = self.index {
            if len > 0 {
                if selected > 0 {
                    self.index = Some(selected - 1);
                } else {
                    self.index = Some(len - 1);
                }
            }
        }
    }

    /// Moves the selection after the task it picked was taken out of a list
    /// of `len` tasks.
    pub fn settle_after_removal(&mut self, len: usize)
        ensures
            *final(self) == old(self).after_removal(len as nat),
            old(self).valid_for(len as nat) && len > 0 ==> final(self).valid_for(
                (len - 1) as nat,
            ),
    {
        if let Some(selected) = self.index {
            if selected < len {
                if selected != 0 {
                    self.index = Some(selected - 1);
                } else if len == 1 {
                    self.index = None;
                }
            }
        }
    }

    /// The task whose detail is shown beside the list: the selected one, or
    /// the first where nothing is selected; none where that position lies
    /// past the end of the list.
    pub open spec fn detail(self, len: nat) -> Option<int> {
        let index = match self.index {
            Some(index) => index as int,
            None => 0,
        };
        if index < len {
            Some(index)
        } else {
            None
        }
    }
}

impl Default for Selection {
    fn default() -> (selection: Selection)
        ensures
            selection.index is None,
    {
        Selection::new()
    }
}

} // verus!
