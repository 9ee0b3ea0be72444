use vstd::prelude::*;
use crate::headers::{HeaderRow, HttpHeaders};

verus! {

/// Edits made in the header table.
#[derive(Debug, Clone, PartialEq, Eq)]
pub enum Message {
    KeyChanged(usize, String),
    ValueChanged(usize, String),
    NewHeader,
}

/// The header table of a request.
#[derive(Debug, Clone)]
pub struct Tab {
    pub headers: HttpHeaders,
}

/// The rows after one edit. An edit of a row that does not exist changes nothing.
pub open spec fn edited_rows(rows: Seq<HeaderRow>, m: Message) -> Seq<HeaderRow> {
    match m {
        Message::KeyChanged(i, k) => if i < rows.len() {
            rows.update(i as int, HeaderRow { key: k@, value: rows[i as int].value })
        } else {
            rows
        },
        Message::ValueChanged(i, v) => if i < rows.len() {
            rows.update(i as int, HeaderRow { key: rows[i as int].key, value: v@ })
        } else {
            rows
        },
        Message::NewHeader => rows.push(HeaderRow { key: Seq::empty(), value: Seq::empty() }),
    }
}

impl Tab {
    /// A table holding the default headers.
    pub fn new() -> (r: Tab)
        ensures
            r.headers@ == seq![HeaderRow { key: "Content-Type"@, value: "application/json"@ }],
    {
        Tab { headers: HttpHeaders::default() }
    }

    /// Applies one edit.
    pub fn update(&mut self, message: Message)
        ensures
            final(self).headers@ == edited_rows(old(self).headers@, message),
    {
        match message {
            Message::KeyChanged(i, key) => {
                if let Some(header) = self.headers.get_mut(i) {
                    header.set_key(key);
                }
            },
            Message::ValueChanged(i, value) => {
                if let Some(header) = self.headers.get_mut(i) {
                    header.set_value(value);
                }
            },
            Message::NewHeader => {
                self.headers.insert_empty();
            },
        }
    }
}

} // verus!
