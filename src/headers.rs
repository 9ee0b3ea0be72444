use vstd::prelude::*;

verus! {

/// What a header row holds: its key and value text.
pub struct HeaderRow {
    pub key: Seq<char>,
    pub value: Seq<char>,
}

/// A row is idle when its key is empty: it is kept for editing but never sent.
pub open spec fn row_idle(r: HeaderRow) -> bool {
    r.key.len() == 0
}

/// One editable header row.
#[derive(Debug, Clone)]
pub struct HttpHeaderEntry {
    key: String,
    value: String,
}

impl View for HttpHeaderEntry {
    type V = HeaderRow;

    closed spec fn view(&self) -> HeaderRow {
        HeaderRow { key: self.key@, value: self.value@ }
    }
}

impl HttpHeaderEntry {
    /// A row with the given key and value; it is idle exactly when `key` is empty.
    pub fn new(key: String, value: String) -> (r: HttpHeaderEntry)
        ensures
            r@ == (HeaderRow { key: key@, value: value@ }),
    {
        HttpHeaderEntry { key, value }
    }

    /// A blank, idle row.
    pub fn empty() -> (r: HttpHeaderEntry)
        ensures
            r@ == (HeaderRow { key: Seq::empty(), value: Seq::empty() }),
            row_idle(r@),
    {
        HttpHeaderEntry { key: String::new(), value: String::new() }
    }

    /// Replaces the key; the row becomes idle exactly when the new key is empty.
    pub fn set_key(&mut self, key: String)
        ensures
            final(self)@ == (HeaderRow { key: key@, value: old(self)@.value }),
            row_idle(final(self)@) <==> key@.len() == 0,
    {
        self.key = key;
    }

    /// Replaces the value; the key, and so idleness, are kept.
    pub fn set_value(&mut self, value: String)
        ensures
            final(self)@ == (HeaderRow { key: old(self)@.key, value: value@ }),
    {
        self.value = value;
    }

    pub fn is_idle(&self) -> (r: bool)
        ensures
            r == row_idle(self@),
    {
        self.key.as_str().is_empty()
    }

    pub fn key(&self) -> (r: String)
        ensures
            r@ == self@.key,
    {
        self.key.clone()
    }

    pub fn value(&self) -> (r: String)
        ensures
            r@ == self@.value,
    {
        self.value.clone()
    }

    /// The key, borrowed.
    pub fn key_str(&self) -> (r: &str)
        ensures
            r@ == self@.key,
    {
        self.key.as_str()
    }

    /// The value, borrowed.
    pub fn value_str(&self) -> (r: &str)
        ensures
            r@ == self@.value,
    {
        self.value.as_str()
    }
}

/// The rows that a sequence of entries holds, in order.
pub open spec fn rows_of(entries: Seq<HttpHeaderEntry>) -> Seq<HeaderRow> {
    entries.map_values(|e: HttpHeaderEntry| e@)
}

/// The ordered header rows of a request, idle rows included.
#[derive(Debug, Clone)]
pub struct HttpHeaders {
    headers: Vec<HttpHeaderEntry>,
}

impl View for HttpHeaders {
    type V = Seq<HeaderRow>;

    closed spec fn view(&self) -> Seq<HeaderRow> {
        rows_of(self.headers@)
    }
}

impl Default for HttpHeaders {
    /// One row, `Content-Type: application/json`.
    fn default() -> (r: HttpHeaders)
        ensures
            r@ == seq![HeaderRow { key: "Content-Type"@, value: "application/json"@ }],
    {
        let e = HttpHeaderEntry::new("Content-Type".to_string(), "application/json".to_string());
        let mut headers: Vec<HttpHeaderEntry> = Vec::new();
        headers.push(e);
        let r = HttpHeaders { headers };
        assert(r@ =~= seq![HeaderRow { key: "Content-Type"@, value: "application/json"@ }]);
        r
    }
}

impl HttpHeaders {
    /// No rows.
    pub fn new() -> (r: HttpHeaders)
        ensures
            r@ == Seq::<HeaderRow>::empty(),
    {
        let r = HttpHeaders { headers: Vec::new() };
        assert(r@ =~= Seq::<HeaderRow>::empty());
        r
    }

    /// Builds the collection from rows in the given order.
    pub fn from_entries(entries: Vec<HttpHeaderEntry>) -> (r: HttpHeaders)
        ensures
            r@ == rows_of(entries@),
    {
        HttpHeaders { headers: entries }
    }

    pub fn len(&self) -> (r: usize)
        ensures
            r == self@.len(),
    {
        self.headers.len()
    }

    /// The row at `index`, if there is one.
    pub fn get(&self, index: usize) -> (r: Option<&HttpHeaderEntry>)
        ensures
            index < self@.len() ==> (r matches Some(e) && e@ == self@[index as int]),
            index >= self@.len() ==> r is None,
    {
        if index < self.headers.len() {
            Some(&self.headers[index])
        } else {
            None
        }
    }

    /// Walks the rows in order.
    pub fn iter(&self) -> (r: HttpHeadersIter<'_>)
        ensures
            r.rest() == self@,
    {
        let r = HttpHeadersIter { headers: &self.headers, pos: 0 };
        assert(r.rest() =~= self@);
        r
    }

    /// Appends a blank idle row.
    pub fn insert_empty(&mut self)
        ensures
            final(self)@ == old(self)@.push(HeaderRow { key: Seq::empty(), value: Seq::empty() }),
    {
        let e = HttpHeaderEntry::empty();
        self.headers.push(e);
        assert(self@ =~= old(self)@.push(HeaderRow { key: Seq::empty(), value: Seq::empty() }));
    }

    /// A mutable borrow of the row at `index`, if there is one.
    pub fn get_mut(&mut self, index: usize) -> (r: Option<&mut HttpHeaderEntry>)
        ensures
            r is Some <==> index < old(self)@.len(),
            r matches Some(e) ==> (*e)@ == old(self)@[index as int] && final(self)@
                == old(self)@.update(index as int, (*final(e))@),
            r is None ==> final(self)@ == old(self)@,
    {
        if index < self.headers.len() {
            Some(&mut self.headers[index])
        } else {
            None
        }
    }

    /// Removes the row at `index`; an index past the end changes nothing.
    pub fn remove(&mut self, index: usize)
        ensures
            index < old(self)@.len() ==> final(self)@ == old(self)@.remove(index as int),
            index >= old(self)@.len() ==> final(self)@ == old(self)@,
    {
        if index < self.headers.len() {
            self.headers.remove(index);
            assert(self@ =~= old(self)@.remove(index as int));
        }
    }
}

/// A walk over the rows of an `HttpHeaders`, front to back.
pub struct HttpHeadersIter<'a> {
    headers: &'a Vec<HttpHeaderEntry>,
    pos: usize,
}

impl<'a> HttpHeadersIter<'a> {
    /// The rows not yet handed out.
    pub closed spec fn rest(&self) -> Seq<HeaderRow> {
        if self.pos <= self.headers@.len() {
            rows_of(self.headers@).skip(self.pos as int)
        } else {
            Seq::empty()
        }
    }

    /// The next row, or `None` once all have been handed out.
    pub fn next(&mut self) -> (r: Option<&'a HttpHeaderEntry>)
        ensures
            old(self).rest().len() == 0 ==> r is None && final(self).rest() == old(self).rest(),
            old(self).rest().len() > 0 ==> (r matches Some(e) && e@ == old(self).rest()[0]
                && final(self).rest() == old(self).rest().skip(1)),
    {
        if self.pos < self.headers.len() {
            let e = &self.headers[self.pos];
            self.pos = self.pos + 1;
            assert(old(self).rest()[0] == e@);
            assert(self.rest() =~= old(self).rest().skip(1));
            Some(e)
        } else {
            None
        }
    }
}

} // verus!
