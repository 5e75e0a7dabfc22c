//! The input devices found on the machine and the cursor that picks one.

use vstd::prelude::*;

verus! {

/// One input device as enumeration reported it. The path identifies the
/// device to the transport; the rest is for display.
#[derive(Clone, Debug, PartialEq, Eq)]
pub struct DeviceDescriptor {
    pub path: Vec<u8>,
    pub vendor_id: u16,
    pub product_id: u16,
    pub manufacturer: Option<String>,
    pub product: Option<String>,
}

/// The devices on offer, in the order of their enumeration, and a cursor
/// that is either unset or on one of them.
#[derive(Debug, PartialEq, Eq)]
pub struct DeviceList {
    items: Vec<DeviceDescriptor>,
    selected: Option<usize>,
}

/// The mathematical content of a [`DeviceList`].
pub struct DeviceListView {
    pub items: Seq<DeviceDescriptor>,
    pub cursor: Option<nat>,
}

impl DeviceListView {
    /// The cursor, if set, is on an item.
    pub open spec fn valid(self) -> bool {
        self.cursor matches Some(i) ==> i < self.items.len()
    }

    /// The list after one step down: an unset cursor goes to the first item,
    /// a set one goes one item further and stops at the last. On an empty
    /// list the cursor stays unset.
    pub open spec fn select_next(self) -> Self {
        let len = self.items.len();
        DeviceListView {
            items: self.items,
            cursor: if len == 0 {
                None
            } else {
                match self.cursor {
                    None => Some(0),
                    Some(i) => Some(
                        if i + 1 < len {
                            i + 1
                        } else {
                            (len - 1) as nat
                        },
                    ),
                }
            },
        }
    }

    /// The list after one step up: an unset cursor goes to the last item, a
    /// set one goes one item back and stops at the first. On an empty list
    /// the cursor stays unset.
    pub open spec fn select_previous(self) -> Self {
        let len = self.items.len();
        DeviceListView {
            items: self.items,
            cursor: if len == 0 {
                None
            } else {
                match self.cursor {
                    None => Some((len - 1) as nat),
                    Some(i) => Some(
                        if i == 0 {
                            0
                        } else if i - 1 < len {
                            (i - 1) as nat
                        } else {
                            (len - 1) as nat
                        },
                    ),
                }
            },
        }
    }
}

/// The index that `ListState::select_next` selects when `selected` was
/// selected before: the first one, or the one after, as far as `usize` goes.
pub open spec fn list_state_next(selected: Option<usize>) -> usize {
    match selected {
        None => 0,
        Some(i) => if i < usize::MAX {
            (i + 1) as usize
        } else {
            i
        },
    }
}

/// The index that `ListState::select_previous` selects when `selected` was
/// selected before: the largest one there is, or the one before, down to 0.
pub open spec fn list_state_previous(selected: Option<usize>) -> usize {
    match selected {
        None => usize::MAX,
        Some(i) => if i > 0 {
            (i - 1) as usize
        } else {
            i
        },
    }
}

/// Calls `ratatui::widgets::ListState::select_next` on a state whose
/// selection is `selected` and returns the state's selection afterwards.
/// Trusted: the method selects index 0 where nothing was selected and the
/// saturating successor of the selected index otherwise. It knows no list
/// length, so the result may lie beyond the last item.
#[verifier::external_body]
fn list_state_select_next(selected: Option<usize>) -> (moved: Option<usize>)
    ensures
        moved == Some(list_state_next(selected)),
{
    let mut state = ratatui::widgets::ListState::default().with_selected(selected);
    state.select_next();
    state.selected()
}

/// Calls `ratatui::widgets::ListState::select_previous` on a state whose
/// selection is `selected` and returns the state's selection afterwards.
/// Trusted: the method selects `usize::MAX` where nothing was selected and
/// the saturating predecessor of the selected index otherwise. It knows no
/// list length, so the result may lie beyond the last item.
#[verifier::external_body]
fn list_state_select_previous(selected: Option<usize>) -> (moved: Option<usize>)
    ensures
        moved == Some(list_state_previous(selected)),
{
    let mut state = ratatui::widgets::ListState::default().with_selected(selected);
    state.select_previous();
    state.selected()
}

/// Brings a selection into a list of `len` items: none on an empty list, the
/// last item where the selection lies beyond it.
fn clamp_selection(selected: Option<usize>, len: usize) -> (clamped: Option<usize>)
    ensures
        clamped == match selected {
            Some(i) if len > 0 => Some(
                if i < len {
                    i
                } else {
                    (len - 1) as usize
                },
            ),
            _ => None,
        },
{
    match selected {
        Some(i) if len > 0 => Some(
            if i < len {
                i
            } else {
                len - 1
            },
        ),
        _ => None,
    }
}

impl View for DeviceList {
    type V = DeviceListView;

    closed spec fn view(&self) -> DeviceListView {
        DeviceListView {
            items: self.items@,
            cursor: match self.selected {
                Some(i) => Some(i as nat),
                None => None,
            },
        }
    }
}

impl DeviceList {
    #[verifier::type_invariant]
    spec fn cursor_in_bounds(self) -> bool {
        self.selected matches Some(i) ==> i < self.items@.len()
    }

    /// A list of the given devices with the cursor unset.
    pub fn new(items: Vec<DeviceDescriptor>) -> (list: Self)
        ensures
            list@ == (DeviceListView { items: items@, cursor: None }),
    {
        DeviceList { items, selected: None }
    }

    pub fn len(&self) -> (len: usize)
        ensures
            len == self@.items.len(),
    {
        self.items.len()
    }

    /// The devices in their order.
    pub fn items(&self) -> (items: &Vec<DeviceDescriptor>)
        ensures
            items@ == self@.items,
    {
        &self.items
    }

    /// The cursor's index, which is an index into the list.
    pub fn selected(&self) -> (selected: Option<usize>)
        ensures
            self@.valid(),
            match selected {
                Some(i) => self@.cursor == Some(i as nat),
                None => self@.cursor is None,
            },
    {
        proof {
            use_type_invariant(self);
        }
        self.selected
    }

    /// The device under the cursor.
    pub fn selected_device(&self) -> (device: Option<&DeviceDescriptor>)
        ensures
            match device {
                Some(d) => self@.cursor matches Some(i) && i < self@.items.len() && *d
                    == self@.items[i as int],
                None => self@.cursor is None,
            },
    {
        proof {
            use_type_invariant(self);
        }
        match self.selected {
            Some(i) => Some(&self.items[i]),
            None => None,
        }
    }

    /// Moves the cursor one item down.
    pub fn select_next(&mut self)
        ensures
            final(self)@ == old(self)@.select_next(),
    {
        proof {
            use_type_invariant(&*self);
        }
        let moved = list_state_select_next(self.selected);
        self.selected = clamp_selection(moved, self.items.len());
    }

    /// Moves the cursor one item up.
    pub fn select_previous(&mut self)
        ensures
            final(self)@ == old(self)@.select_previous(),
    {
        proof {
            use_type_invariant(&*self);
        }
        let moved = list_state_select_previous(self.selected);
        self.selected = clamp_selection(moved, self.items.len());
    }

    /// Gives up the list for the device under the cursor. Without a cursor
    /// the list comes back as it was.
    pub fn into_selected(self) -> (chosen: Result<DeviceDescriptor, DeviceList>)
        ensures
            match chosen {
                Ok(device) => self@.cursor matches Some(i) && i < self@.items.len() && device
                    == self@.items[i as int],
                Err(list) => self@.cursor is None && list == self,
            },
    {
        proof {
            use_type_invariant(&self);
        }
        match self.selected {
            Some(i) => {
                let mut items = self.items;
                Ok(items.swap_remove(i))
            },
            None => Err(self),
        }
    }
}

/// Navigation keeps the items as they are and the cursor within them.
pub proof fn lemma_navigation_stays_in_bounds(list: DeviceListView)
    requires
        list.valid(),
    ensures
        list.select_next().valid(),
        list.select_previous().valid(),
        list.select_next().items == list.items,
        list.select_previous().items == list.items,
{
}

/// At either end of the list the cursor stops: one more step in the same
/// direction leaves it where it is.
pub proof fn lemma_navigation_never_wraps(list: DeviceListView)
    requires
        list.valid(),
        list.items.len() > 0,
    ensures
        list.cursor == Some((list.items.len() - 1) as nat) ==> list.select_next() == list,
        list.cursor == Some(0nat) ==> list.select_previous() == list,
{
}

} // verus!
