use vstd::prelude::*;
use vstd::string::StringExecFns;

use crate::epub::Epub;

verus! {

/// Why the viewer shows no book.
#[derive(Debug, Clone, PartialEq, Eq)]
pub enum Error {
    /// The package at this path could not be loaded.
    EpubLoadError(String),
}

/// What the viewer is showing.
#[derive(Debug)]
pub enum Status {
    Loading,
    Reading,
    Errored(Error),
}

impl Default for Status {
    fn default() -> (r: Status)
        ensures
            r is Loading,
    {
        Status::Loading
    }
}

/// Kind of operation on the viewer.
#[derive(Debug, Clone, Copy, PartialEq, Eq, Structural)]
pub enum Operation {
    TurnPreviousPage,
    TurnNextPage,
}

/// A key of the keyboard, as far as the viewer tells keys apart.
#[derive(Debug, Clone, Copy, PartialEq, Eq, Structural)]
pub enum Key {
    Left,
    Right,
    Other,
}

/// An event that the viewer reacts to.
#[derive(Debug)]
pub enum Message {
    LoadedEpub(Result<Epub, Error>),
    OccurredOperation(Operation),
}

/// The state of the viewer: the book, if one is loaded, and the page of it
/// that is shown.
#[derive(Debug)]
pub struct EpubViewer {
    pub current_page: usize,
    pub status: Status,
    pub epub: Option<Epub>,
}

/// The page shown after turning back from `page`: the one before it, and
/// the first page stays.
pub open spec fn previous_page(page: int) -> int {
    if page > 0 {
        page - 1
    } else {
        0
    }
}

/// The page shown after turning forward from `page` in a book of `pages`
/// pages: the next one, as long as yet another page follows that one;
/// otherwise the page stays.
pub open spec fn next_page(page: int, pages: int) -> int {
    let next = if page < usize::MAX {
        page + 1
    } else {
        page
    };
    if next + 1 >= pages {
        previous_page(next)
    } else {
        next
    }
}

/// The decimal digit `d`, for `d` under ten.
pub open spec fn digit(d: nat) -> Seq<char> {
    if d == 0 {
        "0"@
    } else if d == 1 {
        "1"@
    } else if d == 2 {
        "2"@
    } else if d == 3 {
        "3"@
    } else if d == 4 {
        "4"@
    } else if d == 5 {
        "5"@
    } else if d == 6 {
        "6"@
    } else if d == 7 {
        "7"@
    } else if d == 8 {
        "8"@
    } else {
        "9"@
    }
}

/// The decimal numeral of `n`.
pub open spec fn decimal(n: nat) -> Seq<char>
    decreases n,
{
    if n < 10 {
        digit(n)
    } else {
        decimal(n / 10) + digit(n % 10)
    }
}

/// The title of the window: `Loading` while the book loads, `Page` and the
/// number of the page, counted from one, while it is read, and `Whoops!`
/// after a failure.
pub open spec fn title_of(status: Status, page: int) -> Seq<char> {
    match status {
        Status::Loading => "Loading"@,
        Status::Reading => "Page "@ + decimal((page + 1) as nat),
        Status::Errored(_) => "Whoops!"@,
    }
}

fn digit_text(d: u128) -> (r: &'static str)
    requires
        d < 10,
    ensures
        r@ == digit(d as nat),
{
    if d == 0 {
        "0"
    } else if d == 1 {
        "1"
    } else if d == 2 {
        "2"
    } else if d == 3 {
        "3"
    } else if d == 4 {
        "4"
    } else if d == 5 {
        "5"
    } else if d == 6 {
        "6"
    } else if d == 7 {
        "7"
    } else if d == 8 {
        "8"
    } else {
        "9"
    }
}

/// Writes a number as a decimal numeral.
pub fn decimal_text(n: u128) -> (r: String)
    ensures
        r@ == decimal(n as nat),
    decreases n,
{
    if n < 10 {
        String::from_str(digit_text(n))
    } else {
        decimal_text(n / 10).concat(digit_text(n % 10))
    }
}

/// Maps a pressed key to the event it stands for.
pub fn handle_hotkey(key: Key) -> (r: Option<Message>)
    ensures
        match key {
            Key::Left => r matches Some(Message::OccurredOperation(Operation::TurnPreviousPage)),
            Key::Right => r matches Some(Message::OccurredOperation(Operation::TurnNextPage)),
            Key::Other => r is None,
        },
{
    match key {
        Key::Left => Some(Message::OccurredOperation(Operation::TurnPreviousPage)),
        Key::Right => Some(Message::OccurredOperation(Operation::TurnNextPage)),
        Key::Other => None,
    }
}

impl EpubViewer {
    /// The number of pages of the book: the length of its reading order,
    /// and none while no book is loaded.
    pub open spec fn pages(&self) -> int {
        match self.epub {
            Some(epub) => epub.content().spines.len() as int,
            None => 0,
        }
    }

    /// The viewer before anything is loaded.
    pub fn new() -> (r: EpubViewer)
        ensures
            r.current_page == 0,
            r.status is Loading,
            r.epub is None,
    {
        EpubViewer { current_page: 0, status: Status::Loading, epub: None }
    }

    fn page_count(&self) -> (r: usize)
        ensures
            r == self.pages(),
    {
        match &self.epub {
            Some(epub) => epub.reading_order_length(),
            None => 0,
        }
    }

    /// Turns back one page and returns the page now shown.
    pub fn turn_previous_page(&mut self) -> (r: usize)
        ensures
            r == previous_page(old(self).current_page as int),
            final(self).current_page == r,
            final(self).status == old(self).status,
            final(self).epub == old(self).epub,
    {
        let new_page: usize = match self.current_page.checked_sub(1) {
            Some(page) => page,
            None => 0,
        };
        self.current_page = new_page;
        self.current_page
    }

    /// Turns forward one page and returns the page now shown.
    pub fn turn_next_page(&mut self) -> (r: usize)
        ensures
            r == next_page(old(self).current_page as int, old(self).pages()),
            final(self).current_page == r,
            final(self).status == old(self).status,
            final(self).epub == old(self).epub,
    {
        let pages: usize = self.page_count();
        let next: usize = match self.current_page.checked_add(1) {
            Some(page) => page,
            None => usize::MAX,
        };
        let at_end = match next.checked_add(1) {
            Some(after) => after >= pages,
            None => true,
        };
        let new_page: usize = if at_end {
            match next.checked_sub(1) {
                Some(page) => page,
                None => 0,
            }
        } else {
            next
        };
        self.current_page = new_page;
        self.current_page
    }

    /// The title of the window.
    pub fn title(&self) -> (r: String)
        ensures
            r@ == title_of(self.status, self.current_page as int),
    {
        match &self.status {
            Status::Loading => String::from_str("Loading"),
            Status::Reading => {
                let number: u128 = self.current_page as u128 + 1;
                String::from_str("Page ").concat(decimal_text(number).as_str())
            },
            Status::Errored(_) => String::from_str("Whoops!"),
        }
    }

    /// Reacts to an event: a loaded book is taken up and read, a failure to
    /// load is shown, and an operation turns the page.
    pub fn update(&mut self, message: Message)
        ensures
            match message {
                Message::LoadedEpub(Ok(epub)) => {
                    &&& final(self).status is Reading
                    &&& final(self).epub == Some(epub)
                    &&& final(self).current_page == old(self).current_page
                },
                Message::LoadedEpub(Err(error)) => {
                    &&& final(self).status == Status::Errored(error)
                    &&& final(self).epub == old(self).epub
                    &&& final(self).current_page == old(self).current_page
                },
                Message::OccurredOperation(operation) => {
                    &&& final(self).status == old(self).status
                    &&& final(self).epub == old(self).epub
                    &&& final(self).current_page == match operation {
                        Operation::TurnPreviousPage => previous_page(
                            old(self).current_page as int,
                        ),
                        Operation::TurnNextPage => next_page(
                            old(self).current_page as int,
                            old(self).pages(),
                        ),
                    }
                },
            },
    {
        match message {
            Message::LoadedEpub(Ok(epub)) => {
                self.status = Status::Reading;
                self.epub = Some(epub);
            },
            Message::LoadedEpub(Err(error)) => {
                self.status = Status::Errored(error);
            },
            Message::OccurredOperation(operation) => {
                match operation {
                    Operation::TurnPreviousPage => {
                        self.turn_previous_page();
                    },
                    Operation::TurnNextPage => {
                        self.turn_next_page();
                    },
                }
            },
        }
    }
}

} // verus!
