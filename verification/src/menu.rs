use vstd::prelude::*;

verus! {

/// The screens of the program.
#[derive(Clone, Copy, Debug, PartialEq, Eq, Structural)]
pub enum MenuItem {
    Home,
    Tasks,
}

impl MenuItem {
    /// The place of the screen among the tabs.
    pub open spec fn position(self) -> usize {
        match self {
            MenuItem::Home => 0,
            MenuItem::Tasks => 1,
        }
    }

    /// The title of the screen.
    pub open spec fn title(self) -> &'static str {
        match self {
            MenuItem::Home => "Home",
            MenuItem::Tasks => "Tasks",
        }
    }
}

impl From<MenuItem> for usize {
    fn from(input: MenuItem) -> (position: usize) {
        match input {
            MenuItem::Home => 0,
            MenuItem::Tasks => 1,
        }
    }
}

impl vstd::std_specs::convert::FromSpecImpl<MenuItem> for usize {
    open spec fn obeys_from_spec() -> bool {
        true
    }

    open spec fn from_spec(input: MenuItem) -> usize {
        input.position()
    }
}

/// The framed parts of the screen.
#[derive(Clone, Copy, Debug, PartialEq, Eq, Structural)]
pub enum UiSections {
    Detail,
    Copyright,
    Menu,
    MenuItem(MenuItem),
}

impl UiSections {
    /// The title of the part: its own, or that of the screen it shows.
    pub open spec fn title(self) -> &'static str {
        match self {
            UiSections::Detail => "Detail",
            UiSections::Copyright => "Copyright",
            UiSections::Menu => "Menu",
            UiSections::MenuItem(menu_item) => menu_item.title(),
        }
    }
}

impl From<MenuItem> for &'static str {
    fn from(input: MenuItem) -> (title: &'static str) {
        match input {
            MenuItem::Home => "Home",
            MenuItem::Tasks => "Tasks",
        }
    }
}

impl vstd::std_specs::convert::FromSpecImpl<MenuItem> for &'static str {
    open spec fn obeys_from_spec() -> bool {
        true
    }

    open spec fn from_spec(input: MenuItem) -> &'static str {
        input.title()
    }
}

impl From<UiSections> for &'static str {
    fn from(input: UiSections) -> (title: &'static str) {
        match input {
            UiSections::Detail => "Detail",
            UiSections::Copyright => "Copyright",
            UiSections::Menu => "Menu",
            UiSections::MenuItem(menu_item) => menu_item.into(),
        }
    }
}

impl vstd::std_specs::convert::FromSpecImpl<UiSections> for &'static str {
    open spec fn obeys_from_spec() -> bool {
        true
    }

    open spec fn from_spec(input: UiSections) -> &'static str {
        input.title()
    }
}


impl From<MenuItem> for UiSections {
    fn from(input: MenuItem) -> (section: UiSections) {
        UiSections::MenuItem(input)
    }
}

impl vstd::std_specs::convert::FromSpecImpl<MenuItem> for UiSections {
    open spec fn obeys_from_spec() -> bool {
        true
    }

    open spec fn from_spec(input: MenuItem) -> UiSections {
        UiSections::MenuItem(input)
    }
}

} // verus!
