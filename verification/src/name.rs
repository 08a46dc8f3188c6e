//! Fully-qualified domain names as label sequences.
//!
//! A name is case-preserving: it keeps the exact bytes the client sent, and
//! all comparisons and store keys go through ASCII lowercasing. The root name
//! has no labels; `example.com.` has the two labels `example` and `com`.

use vstd::prelude::*;

verus! {

/// The longest label the wire format allows.
pub const MAX_LABEL_LEN: usize = 63;

/// ASCII lowercasing of a single byte.
pub open spec fn lower_byte(b: u8) -> u8 {
    if 65 <= b && b <= 90 {
        (b + 32) as u8
    } else {
        b
    }
}

/// ASCII lowercasing of a label.
pub open spec fn lower_label(l: Seq<u8>) -> Seq<u8> {
    l.map_values(|b: u8| lower_byte(b))
}

/// ASCII lowercasing of a whole name.
pub open spec fn lower_name(n: Seq<Seq<u8>>) -> Seq<Seq<u8>> {
    n.map_values(|l: Seq<u8>| lower_label(l))
}

/// A well-formed label is nonempty, short enough for the wire, and contains
/// no dot (the textual separator).
pub open spec fn label_wf(l: Seq<u8>) -> bool {
    &&& 1 <= l.len() <= MAX_LABEL_LEN
    &&& forall|i: int| 0 <= i < l.len() ==> l[i] != 46u8
}

/// A case-preserving fully-qualified domain name.
#[derive(Debug, Clone, PartialEq, Eq, Hash)]
pub struct DnsName {
    labels: Vec<Vec<u8>>,
}

impl View for DnsName {
    type V = Seq<Seq<u8>>;

    closed spec fn view(&self) -> Seq<Seq<u8>> {
        self.labels@.map_values(|l: Vec<u8>| l@)
    }
}

/// The textual form of a name: every label followed by a dot, and the root
/// name written as a single dot.
pub open spec fn name_text(n: Seq<Seq<u8>>) -> Seq<u8>
    decreases n.len(),
{
    if n.len() == 0 {
        seq![46u8]
    } else if n.len() == 1 {
        n[0] + seq![46u8]
    } else {
        n[0] + seq![46u8] + name_text(n.skip(1))
    }
}

/// `zone` encloses (or equals) `name`: the labels of `zone` are a
/// case-insensitive suffix of the labels of `name`.
pub open spec fn zone_of(zone: Seq<Seq<u8>>, name: Seq<Seq<u8>>) -> bool {
    &&& zone.len() <= name.len()
    &&& forall|k: int|
        0 <= k < zone.len() ==> lower_label(#[trigger] zone[k]) == lower_label(
            name[k + name.len() - zone.len()],
        )
}

impl DnsName {
    /// Every label is well formed.
    pub open spec fn wf(&self) -> bool {
        forall|i: int| 0 <= i < self@.len() ==> label_wf(#[trigger] self@[i])
    }

    /// Builds a name from labels, refusing labels that are empty, too long,
    /// or contain a dot.
    pub fn new(labels: Vec<Vec<u8>>) -> (r: Option<DnsName>)
        ensures
            match r {
                Some(n) => n@ =~= labels@.map_values(|l: Vec<u8>| l@) && n.wf(),
                None => !(forall|i: int|
                    0 <= i < labels@.len() ==> label_wf(#[trigger] labels@[i]@)),
            },
    {
        let mut i: usize = 0;
        while i < labels.len()
            invariant
                0 <= i <= labels@.len(),
                forall|k: int| 0 <= k < i ==> label_wf(#[trigger] labels@[k]@),
            decreases labels@.len() - i,
        {
            let l = &labels[i];
            if l.len() == 0 || l.len() > MAX_LABEL_LEN {
                proof {
                    assert(!label_wf(labels@[i as int]@));
                }
                return None;
            }
            let mut j: usize = 0;
            while j < l.len()
                invariant
                    0 <= j <= l@.len(),
                    0 <= i < labels@.len(),
                    l@ == labels@[i as int]@,
                    forall|k: int| 0 <= k < j ==> l@[k] != 46u8,
                decreases l@.len() - j,
            {
                if l[j] == 46u8 {
                    proof {
                        assert(!label_wf(labels@[i as int]@));
                    }
                    return None;
                }
                j += 1;
            }
            i += 1;
        }
        Some(DnsName { labels })
    }

    /// The name's labels, case preserved, leftmost first.
    pub fn labels(&self) -> (r: &Vec<Vec<u8>>)
        ensures
            r@.map_values(|l: Vec<u8>| l@) == self@,
    {
        &self.labels
    }

    /// The number of labels; the root name has zero.
    pub fn num_labels(&self) -> (r: usize)
        ensures
            r == self@.len(),
    {
        self.labels.len()
    }

    /// A deep copy whose view equals this name's view.
    pub fn copy(&self) -> (r: DnsName)
        ensures
            r@ == self@,
            r.wf() == self.wf(),
    {
        let mut labels: Vec<Vec<u8>> = Vec::new();
        let mut i: usize = 0;
        while i < self.labels.len()
            invariant
                0 <= i <= self.labels@.len(),
                labels@.len() == i,
                forall|k: int| 0 <= k < i ==> labels@[k]@ == #[trigger] self.labels@[k]@,
            decreases self.labels@.len() - i,
        {
            labels.push(copy_bytes(&self.labels[i]));
            i += 1;
        }
        let r = DnsName { labels };
        proof {
            assert(r@ =~= self@);
        }
        r
    }

    /// The same name with every ASCII letter lowercased.
    pub fn lowercased(&self) -> (r: DnsName)
        ensures
            r@ == lower_name(self@),
            self.wf() ==> r.wf(),
    {
        let mut labels: Vec<Vec<u8>> = Vec::new();
        let mut i: usize = 0;
        while i < self.labels.len()
            invariant
                0 <= i <= self.labels@.len(),
                labels@.len() == i,
                forall|k: int| 0 <= k < i ==> labels@[k]@ == lower_label(#[trigger] self.labels@[k]@),
            decreases self.labels@.len() - i,
        {
            labels.push(lower_bytes(&self.labels[i]));
            i += 1;
        }
        let r = DnsName { labels };
        proof {
            assert(r@ =~= lower_name(self@));
            if self.wf() {
                assert forall|k: int| 0 <= k < r@.len() implies label_wf(#[trigger] r@[k]) by {
                    assert(label_wf(self@[k]));
                    assert(r@[k] == lower_label(self@[k]));
                    assert forall|j: int| 0 <= j < r@[k].len() implies r@[k][j] != 46u8 by {
                        assert(self@[k][j] != 46u8);
                    }
                }
            }
        }
        r
    }

    /// The wildcard form: the leftmost label replaced by `*`. The root name
    /// is left unchanged.
    pub fn to_wildcard(&self) -> (r: DnsName)
        ensures
            self@.len() == 0 ==> r@ == self@,
            self@.len() > 0 ==> r@ == self@.update(0, seq![42u8]),
            self.wf() ==> r.wf(),
    {
        let mut r = self.copy();
        if r.labels.len() > 0 {
            let mut star: Vec<u8> = Vec::new();
            star.push(42u8);
            r.labels.set(0, star);
            proof {
                assert(r@ =~= self@.update(0, seq![42u8]));
                assert(label_wf(seq![42u8]));
            }
        } else {
            proof {
                assert(r@ =~= self@);
            }
        }
        r
    }

    /// Whether this name encloses (or equals) `other`, comparing labels
    /// case-insensitively from the right.
    pub fn zone_of(&self, other: &DnsName) -> (r: bool)
        ensures
            r == zone_of(self@, other@),
    {
        if self.labels.len() > other.labels.len() {
            return false;
        }
        let shift = other.labels.len() - self.labels.len();
        let mut k: usize = 0;
        while k < self.labels.len()
            invariant
                0 <= k <= self@.len(),
                self@.len() <= other@.len(),
                self@.len() == self.labels@.len(),
                other@.len() == other.labels@.len(),
                shift == other@.len() - self@.len(),
                forall|m: int|
                    0 <= m < k ==> lower_label(#[trigger] self@[m]) == lower_label(
                        other@[m + shift],
                    ),
            decreases self@.len() - k,
        {
            let olen = other.labels.len();
            proof {
                assert(k + shift < olen);
            }
            let a = lower_bytes(&self.labels[k]);
            let b = lower_bytes(&other.labels[k + shift]);
            if !bytes_eq(&a, &b) {
                proof {
                    assert(lower_label(self@[k as int]) != lower_label(other@[k + shift]));
                    assert(!zone_of(self@, other@));
                }
                return false;
            }
            k += 1;
        }
        true
    }

    /// The name cut down to its rightmost `n` labels, inheriting the case of
    /// this name. Used to give an authority record the apex's label count
    /// while preserving the case the client sent.
    pub fn truncated_to(&self, n: usize) -> (r: DnsName)
        requires
            n <= self@.len(),
        ensures
            r@ == self@.skip(self@.len() - n),
            self.wf() ==> r.wf(),
    {
        let mut labels: Vec<Vec<u8>> = Vec::new();
        let start = self.labels.len() - n;
        let mut i: usize = start;
        while i < self.labels.len()
            invariant
                start <= i <= self.labels@.len(),
                start == self.labels@.len() - n,
                labels@.len() == i - start,
                forall|k: int|
                    0 <= k < i - start ==> labels@[k]@ == #[trigger] self.labels@[k + start]@,
            decreases self.labels@.len() - i,
        {
            labels.push(copy_bytes(&self.labels[i]));
            i += 1;
        }
        let r = DnsName { labels };
        proof {
            assert(r@ =~= self@.skip(self@.len() - n));
        }
        r
    }

    /// The textual bytes of the name, lowercased: each label followed by a
    /// dot, the root name as a single dot. This is the form under which
    /// names stand in store keys.
    pub fn canonical_text(&self) -> (r: Vec<u8>)
        ensures
            r@ == name_text(lower_name(self@)),
    {
        let lowered = self.lowercased();
        let mut out: Vec<u8> = Vec::new();
        if lowered.labels.len() == 0 {
            out.push(46u8);
            proof {
                assert(out@ =~= name_text(lower_name(self@)));
            }
            return out;
        }
        let mut i: usize = 0;
        while i < lowered.labels.len()
            invariant
                0 <= i <= lowered.labels@.len(),
                lowered@ == lower_name(self@),
                lowered@.len() > 0,
                out@ == text_prefix(lowered@, i as int),
            decreases lowered.labels@.len() - i,
        {
            let l = &lowered.labels[i];
            let mut j: usize = 0;
            while j < l.len()
                invariant
                    0 <= j <= l@.len(),
                    0 <= i < lowered.labels@.len(),
                    out@ == text_prefix(lowered@, i as int) + l@.take(j as int),
                    l@ == lowered@[i as int],
                decreases l@.len() - j,
            {
                let b = l[j];
                out.push(b);
                proof {
                    assert(l@.take(j + 1) =~= l@.take(j as int) + seq![l@[j as int]]);
                    assert(out@ =~= text_prefix(lowered@, i as int) + l@.take(j + 1));
                }
                j += 1;
            }
            out.push(46u8);
            proof {
                assert(l@.take(l@.len() as int) =~= l@);
                assert(out@ =~= text_prefix(lowered@, i + 1)) by {
                    lemma_text_prefix_step(lowered@, i as int);
                    assert(out@ =~= text_prefix(lowered@, i as int) + l@ + seq![46u8]);
                }
            }
            i += 1;
        }
        proof {
            lemma_text_prefix_full(lowered@);
        }
        out
    }

    /// Parses the textual form: one or more dot-terminated labels, or a
    /// single dot for the root name. Case is preserved. Succeeds exactly
    /// when `name_parse` does, and a parsed name prints back to its text.
    pub fn parse(text: &[u8]) -> (r: Option<DnsName>)
        ensures
            match r {
                Some(n) => n.wf() && name_parse(text@) == Some(n@) && text@ == name_text(n@),
                None => name_parse(text@) is None,
            },
    {
        if text.len() == 1 && text[0] == 46u8 {
            let r = DnsName { labels: Vec::new() };
            proof {
                assert(text@ =~= seq![46u8]);
                assert(text@ =~= name_text(r@));
                assert(r@ =~= Seq::<Seq<u8>>::empty());
            }
            return Some(r);
        }
        match Self::parse_from(text, 0) {
            None => {
                proof {
                    assert(text@.skip(0) =~= text@);
                }
                None
            },
            Some(labels) => {
                proof {
                    assert(text@.skip(0) =~= text@);
                }
                if labels.len() == 0 {
                    return None;
                }
                let r = DnsName { labels };
                proof {
                    lemma_parse_labels_roundtrip(text@);
                }
                Some(r)
            },
        }
    }

    /// Parses the dot-terminated labels of `text[from..]`, mirroring
    /// `parse_labels` step for step.
    fn parse_from(text: &[u8], from: usize) -> (r: Option<Vec<Vec<u8>>>)
        requires
            from <= text@.len(),
        ensures
            match r {
                Some(v) => parse_labels(text@.skip(from as int)) == Some(
                    v@.map_values(|l: Vec<u8>| l@),
                ),
                None => parse_labels(text@.skip(from as int)) is None,
            },
        decreases text@.len() - from,
    {
        let ghost suffix = text@.skip(from as int);
        if from == text.len() {
            let v: Vec<Vec<u8>> = Vec::new();
            proof {
                assert(suffix =~= Seq::<u8>::empty());
                assert(v@.map_values(|l: Vec<u8>| l@) =~= Seq::<Seq<u8>>::empty());
            }
            return Some(v);
        }
        // find the first dot at or after `from`
        let mut j: usize = from;
        while j < text.len() && text[j] != 46u8
            invariant
                from <= j <= text@.len(),
                forall|m: int| from <= m < j ==> text@[m] != 46u8,
            decreases text@.len() - j,
        {
            j += 1;
        }
        if j == text.len() {
            proof {
                lemma_first_dot_none(suffix);
            }
            return None;
        }
        proof {
            lemma_first_dot_found(suffix, j - from);
        }
        if j == from {
            return None;
        }
        if j - from > MAX_LABEL_LEN {
            return None;
        }
        // copy the label text[from..j]
        let mut label: Vec<u8> = Vec::new();
        let mut m: usize = from;
        while m < j
            invariant
                from <= m <= j <= text@.len(),
                label@ == text@.subrange(from as int, m as int),
            decreases j - m,
        {
            label.push(text[m]);
            proof {
                assert(text@.subrange(from as int, m + 1) =~= text@.subrange(
                    from as int,
                    m as int,
                ) + seq![text@[m as int]]);
            }
            m += 1;
        }
        match Self::parse_from(text, j + 1) {
            None => {
                proof {
                    assert(text@.skip(j + 1) =~= suffix.skip(j - from + 1));
                }
                None
            },
            Some(mut rest) => {
                proof {
                    assert(text@.skip(j + 1) =~= suffix.skip(j - from + 1));
                    assert(label@ =~= suffix.take(j - from));
                }
                let ghost rest_view = rest@.map_values(|l: Vec<u8>| l@);
                rest.insert(0, label);
                proof {
                    assert(rest@.map_values(|l: Vec<u8>| l@) =~= seq![label@] + rest_view);
                }
                Some(rest)
            },
        }
    }
}

/// The position of the first dot, if any.
pub open spec fn first_dot(text: Seq<u8>) -> Option<int>
    decreases text.len(),
{
    if text.len() == 0 {
        None
    } else if text[0] == 46u8 {
        Some(0)
    } else {
        match first_dot(text.skip(1)) {
            None => None,
            Some(k) => Some(k + 1),
        }
    }
}

/// The labels denoted by a dot-terminated byte text: each label must be
/// nonempty, at most `MAX_LABEL_LEN` long, and followed by a dot. Empty text
/// denotes the empty label sequence.
pub open spec fn parse_labels(text: Seq<u8>) -> Option<Seq<Seq<u8>>>
    decreases text.len(),
{
    if text.len() == 0 {
        Some(Seq::empty())
    } else {
        match first_dot(text) {
            None => None,
            Some(k) => if k < 1 || k > MAX_LABEL_LEN || k + 1 > text.len() {
                None
            } else {
                match parse_labels(text.skip(k + 1)) {
                    None => None,
                    Some(rest) => Some(seq![text.take(k)] + rest),
                }
            },
        }
    }
}

/// What a textual name denotes: the root name for a single dot, otherwise at
/// least one dot-terminated label.
pub open spec fn name_parse(text: Seq<u8>) -> Option<Seq<Seq<u8>>> {
    if text.len() == 1 && text[0] == 46u8 {
        Some(Seq::empty())
    } else {
        match parse_labels(text) {
            None => None,
            Some(n) => if n.len() == 0 {
                None
            } else {
                Some(n)
            },
        }
    }
}

proof fn lemma_first_dot_props(text: Seq<u8>)
    ensures
        match first_dot(text) {
            Some(k) => 0 <= k < text.len() && text[k] == 46u8 && forall|m: int|
                0 <= m < k ==> text[m] != 46u8,
            None => forall|m: int| 0 <= m < text.len() ==> text[m] != 46u8,
        },
    decreases text.len(),
{
    if text.len() > 0 && text[0] != 46u8 {
        lemma_first_dot_props(text.skip(1));
        let t1 = text.skip(1);
        match first_dot(t1) {
            Some(k) => {
                assert(text[k + 1] == t1[k]);
                assert forall|m: int| 0 <= m < k + 1 implies text[m] != 46u8 by {
                    if m > 0 {
                        assert(text[m] == t1[m - 1]);
                    }
                }
            },
            None => {
                assert forall|m: int| 0 <= m < text.len() implies text[m] != 46u8 by {
                    if m > 0 {
                        assert(text[m] == t1[m - 1]);
                    }
                }
            },
        }
    }
}

/// If no byte of `text` is a dot, there is no first dot.
proof fn lemma_first_dot_none(text: Seq<u8>)
    requires
        forall|m: int| 0 <= m < text.len() ==> text[m] != 46u8,
    ensures
        first_dot(text) is None,
    decreases text.len(),
{
    if text.len() > 0 {
        lemma_first_dot_none(text.skip(1));
    }
}

/// If `text[k]` is the first dot, `first_dot` finds it.
proof fn lemma_first_dot_found(text: Seq<u8>, k: int)
    requires
        0 <= k < text.len(),
        text[k] == 46u8,
        forall|m: int| 0 <= m < k ==> text[m] != 46u8,
    ensures
        first_dot(text) == Some(k),
    decreases text.len(),
{
    if k > 0 {
        lemma_first_dot_found(text.skip(1), k - 1);
    }
}

/// A successful label parse prints back to the text it came from, and every
/// parsed label is well formed.
proof fn lemma_parse_labels_roundtrip(text: Seq<u8>)
    ensures
        match parse_labels(text) {
            Some(n) => (n.len() > 0 ==> text == name_text(n)) && (n.len() == 0 ==> text.len()
                == 0) && forall|i: int| 0 <= i < n.len() ==> label_wf(#[trigger] n[i]),
            None => true,
        },
    decreases text.len(),
{
    if text.len() == 0 {
        return ;
    }
    lemma_first_dot_props(text);
    match first_dot(text) {
        None => {},
        Some(k) => {
            if k == 0 || k > MAX_LABEL_LEN || k + 1 > text.len() {
            } else {
                lemma_parse_labels_roundtrip(text.skip(k + 1));
                match parse_labels(text.skip(k + 1)) {
                    None => {},
                    Some(rest) => {
                        let n = seq![text.take(k)] + rest;
                        let head = text.take(k);
                        assert(label_wf(head)) by {
                            assert(head.len() == k);
                            assert(forall|m: int| 0 <= m < k ==> head[m] == text[m]);
                        }
                        assert(forall|i: int| 0 <= i < n.len() ==> label_wf(#[trigger] n[i])) by {
                            assert(n[0] == head);
                            assert(forall|i: int| 1 <= i < n.len() ==> n[i] == rest[i - 1]);
                        }
                        if rest.len() == 0 {
                            assert(text.skip(k + 1).len() == 0);
                            assert(n.len() == 1);
                            assert(n[0] == head);
                            assert(name_text(n) == head + seq![46u8]);
                            assert(text =~= head + seq![46u8]);
                        } else {
                            assert(n.len() >= 2);
                            assert(n[0] == head);
                            assert(n.skip(1) =~= rest);
                            assert(name_text(n) == head + seq![46u8] + name_text(rest));
                            assert(text.skip(k + 1) == name_text(rest));
                            assert(text =~= head + seq![46u8] + text.skip(k + 1));
                        }
                    },
                }
            }
        },
    }
}


/// The text of a label sequence without the root-name special case: every
/// label followed by a dot (the empty sequence gives empty text).
pub open spec fn labels_text(n: Seq<Seq<u8>>) -> Seq<u8>
    decreases n.len(),
{
    if n.len() == 0 {
        Seq::empty()
    } else {
        labels_text(n.drop_last()) + n.last() + seq![46u8]
    }
}

/// The text of the first `i` labels of `n`, every label followed by a dot.
pub open spec fn text_prefix(n: Seq<Seq<u8>>, i: int) -> Seq<u8> {
    labels_text(n.take(i))
}

proof fn lemma_text_prefix_step(n: Seq<Seq<u8>>, i: int)
    requires
        0 <= i < n.len(),
    ensures
        text_prefix(n, i + 1) == text_prefix(n, i) + n[i] + seq![46u8],
{
    assert(n.take(i + 1).drop_last() =~= n.take(i));
    assert(n.take(i + 1).last() == n[i]);
}

proof fn lemma_labels_text_push(n: Seq<Seq<u8>>, l: Seq<u8>)
    ensures
        labels_text(n.push(l)) == labels_text(n) + l + seq![46u8],
{
    assert(n.push(l).drop_last() =~= n);
    assert(n.push(l).last() == l);
}

/// For a nonempty label sequence the two text functions agree.
proof fn lemma_labels_text_is_name_text(n: Seq<Seq<u8>>)
    requires
        n.len() > 0,
    ensures
        labels_text(n) == name_text(n),
    decreases n.len(),
{
    if n.len() == 1 {
        assert(n.drop_last() =~= Seq::<Seq<u8>>::empty());
        assert(labels_text(Seq::<Seq<u8>>::empty()) == Seq::<u8>::empty());
        assert(labels_text(n) == labels_text(n.drop_last()) + n.last() + seq![46u8]);
        assert(name_text(n) == n[0] + seq![46u8]);
        assert(labels_text(n) =~= name_text(n));
    } else {
        lemma_labels_text_is_name_text(n.drop_last());
        lemma_name_text_snoc(n);
    }
}

/// Appending one more label to a nonempty name appends its text.
proof fn lemma_name_text_snoc(n: Seq<Seq<u8>>)
    requires
        n.len() >= 2,
    ensures
        name_text(n) == name_text(n.drop_last()) + n.last() + seq![46u8],
    decreases n.len(),
{
    if n.len() == 2 {
        assert(n.skip(1) =~= seq![n[1]]);
        assert(name_text(n.skip(1)) == n[1] + seq![46u8]);
        assert(n.drop_last() =~= seq![n[0]]);
        assert(name_text(n.drop_last()) == n[0] + seq![46u8]);
        assert(name_text(n) =~= name_text(n.drop_last()) + n.last() + seq![46u8]);
    } else {
        lemma_name_text_snoc(n.skip(1));
        assert(n.skip(1).drop_last() =~= n.drop_last().skip(1));
        assert(n.skip(1).last() == n.last());
        assert(name_text(n) == n[0] + seq![46u8] + name_text(n.skip(1)));
        assert(name_text(n.drop_last()) == n[0] + seq![46u8] + name_text(n.drop_last().skip(1)));
        assert(name_text(n) =~= name_text(n.drop_last()) + n.last() + seq![46u8]);
    }
}

/// `text_prefix` over the whole sequence is `labels_text` of it.
proof fn lemma_text_prefix_full(n: Seq<Seq<u8>>)
    requires
        n.len() > 0,
    ensures
        text_prefix(n, n.len() as int) == name_text(n),
{
    assert(n.take(n.len() as int) =~= n);
    lemma_labels_text_is_name_text(n);
}

/// A byte-for-byte copy of a byte vector.
pub fn copy_bytes(v: &Vec<u8>) -> (r: Vec<u8>)
    ensures
        r@ == v@,
{
    let mut out: Vec<u8> = Vec::new();
    let mut i: usize = 0;
    while i < v.len()
        invariant
            0 <= i <= v@.len(),
            out@ == v@.take(i as int),
        decreases v@.len() - i,
    {
        out.push(v[i]);
        proof {
            assert(v@.take(i + 1) =~= v@.take(i as int) + seq![v@[i as int]]);
        }
        i += 1;
    }
    proof {
        assert(v@.take(v@.len() as int) =~= v@);
    }
    out
}

/// ASCII lowercasing of a byte vector.
pub fn lower_bytes(v: &Vec<u8>) -> (r: Vec<u8>)
    ensures
        r@ == lower_label(v@),
{
    let mut out: Vec<u8> = Vec::new();
    let mut i: usize = 0;
    while i < v.len()
        invariant
            0 <= i <= v@.len(),
            out@ == lower_label(v@.take(i as int)),
        decreases v@.len() - i,
    {
        let b = v[i];
        let low = if 65 <= b && b <= 90 {
            b + 32
        } else {
            b
        };
        out.push(low);
        proof {
            assert(v@.take(i + 1) =~= v@.take(i as int) + seq![v@[i as int]]);
            assert(out@ =~= lower_label(v@.take(i + 1)));
        }
        i += 1;
    }
    proof {
        assert(v@.take(v@.len() as int) =~= v@);
    }
    out
}

/// Byte-vector equality.
pub fn bytes_eq(a: &Vec<u8>, b: &Vec<u8>) -> (r: bool)
    ensures
        r == (a@ == b@),
{
    if a.len() != b.len() {
        proof {
            assert(a@ != b@);
        }
        return false;
    }
    let mut i: usize = 0;
    while i < a.len()
        invariant
            0 <= i <= a@.len(),
            a@.len() == b@.len(),
            forall|k: int| 0 <= k < i ==> a@[k] == b@[k],
        decreases a@.len() - i,
    {
        if a[i] != b[i] {
            proof {
                assert(a@ != b@);
            }
            return false;
        }
        i += 1;
    }
    proof {
        assert(a@ =~= b@);
    }
    true
}

} // verus!
