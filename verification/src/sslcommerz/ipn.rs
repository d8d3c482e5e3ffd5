//! Payment notifications (IPN) from SSLCommerz and the message their
//! signature is computed over.
use crate::text::{str_eq, trim, trimmed};
use vstd::prelude::*;

verus! {

/// Data received from SSLCommerz with a payment notification or redirect.
#[derive(Debug, Clone)]
pub struct SslcIpnData {
    /// Validation id.
    pub val_id: Option<String>,
    /// Transaction id.
    pub transaction_id: Option<String>,
    /// Payment status from the gateway.
    pub status: Option<String>,
    /// Currency amount.
    pub amount: Option<String>,
    /// Currency type.
    pub currency: Option<String>,
    /// The card issuer country.
    pub card_issuer_country: Option<String>,
    /// Store amount that was settled.
    pub store_amount: Option<String>,
    /// The verification hash sent by SSLCommerz.
    pub verify_sign: Option<String>,
    /// The comma-separated keys whose values the hash covers.
    pub verify_key: Option<String>,
    /// The other fields received, each with its text when it is a string
    /// (`None` for a field of another JSON kind). Keys are distinct.
    pub extra: Vec<(String, Option<String>)>,
}

/// Mathematical model of an [`SslcIpnData`].
pub struct IpnModel {
    pub val_id: Option<Seq<char>>,
    pub transaction_id: Option<Seq<char>>,
    pub status: Option<Seq<char>>,
    pub amount: Option<Seq<char>>,
    pub currency: Option<Seq<char>>,
    pub card_issuer_country: Option<Seq<char>>,
    pub store_amount: Option<Seq<char>>,
    pub verify_sign: Option<Seq<char>>,
    pub verify_key: Option<Seq<char>>,
    pub extra: Seq<(Seq<char>, Option<Seq<char>>)>,
}

/// The texts of the extra fields.
pub open spec fn extra_view(e: Seq<(String, Option<String>)>) -> Seq<(Seq<char>, Option<Seq<char>>)> {
    e.map_values(|p: (String, Option<String>)| (p.0@, p.1.deep_view()))
}

impl View for SslcIpnData {
    type V = IpnModel;

    open spec fn view(&self) -> IpnModel {
        IpnModel {
            val_id: self.val_id.deep_view(),
            transaction_id: self.transaction_id.deep_view(),
            status: self.status.deep_view(),
            amount: self.amount.deep_view(),
            currency: self.currency.deep_view(),
            card_issuer_country: self.card_issuer_country.deep_view(),
            store_amount: self.store_amount.deep_view(),
            verify_sign: self.verify_sign.deep_view(),
            verify_key: self.verify_key.deep_view(),
            extra: extra_view(self.extra@),
        }
    }
}

/// The keys that are read into named fields rather than into `extra`.
pub open spec fn is_named_ipn_key(k: Seq<char>) -> bool {
    ||| k == "val_id"@
    ||| k == "tran_id"@
    ||| k == "transaction_id"@
    ||| k == "status"@
    ||| k == "amount"@
    ||| k == "currency"@
    ||| k == "card_issuer_country"@
    ||| k == "store_amount"@
    ||| k == "verify_sign"@
    ||| k == "verify_key"@
}

/// The value stored under `key` in a list of pairs (the first match; keys
/// of a map are distinct).
pub open spec fn pair_value(s: Seq<(Seq<char>, Seq<char>)>, key: Seq<char>) -> Option<Seq<char>>
    decreases s.len(),
{
    if s.len() == 0 {
        None
    } else if s[0].0 == key {
        Some(s[0].1)
    } else {
        pair_value(s.drop_first(), key)
    }
}

/// The pairs that are not read into named fields, kept in order.
pub open spec fn extra_entries(s: Seq<(Seq<char>, Seq<char>)>) -> Seq<(Seq<char>, Option<Seq<char>>)>
    decreases s.len(),
{
    if s.len() == 0 {
        seq![]
    } else {
        let prev = extra_entries(s.drop_last());
        if is_named_ipn_key(s.last().0) {
            prev
        } else {
            prev.push((s.last().0, Some(s.last().1)))
        }
    }
}

/// The notification read from its received fields.
pub open spec fn ipn_from_pairs(s: Seq<(Seq<char>, Seq<char>)>) -> IpnModel {
    IpnModel {
        val_id: pair_value(s, "val_id"@),
        transaction_id: match pair_value(s, "tran_id"@) {
            Some(v) => Some(v),
            None => pair_value(s, "transaction_id"@),
        },
        status: pair_value(s, "status"@),
        amount: pair_value(s, "amount"@),
        currency: pair_value(s, "currency"@),
        card_issuer_country: pair_value(s, "card_issuer_country"@),
        store_amount: pair_value(s, "store_amount"@),
        verify_sign: pair_value(s, "verify_sign"@),
        verify_key: pair_value(s, "verify_key"@),
        extra: extra_entries(s),
    }
}

/// The text of the extra field `key`, when there is one and it is a string.
pub open spec fn extra_value(e: Seq<(Seq<char>, Option<Seq<char>>)>, key: Seq<char>) -> Option<Seq<char>>
    decreases e.len(),
{
    if e.len() == 0 {
        None
    } else if e[0].0 == key {
        e[0].1
    } else {
        extra_value(e.drop_first(), key)
    }
}

/// The named field that stands for `key` when no extra field gives it.
pub open spec fn named_value(d: IpnModel, key: Seq<char>) -> Option<Seq<char>> {
    if key == "val_id"@ {
        d.val_id
    } else if key == "tran_id"@ {
        d.transaction_id
    } else if key == "status"@ {
        d.status
    } else if key == "amount"@ {
        d.amount
    } else if key == "currency"@ {
        d.currency
    } else if key == "store_amount"@ {
        d.store_amount
    } else {
        None
    }
}

/// The value a signed key contributes to the signed message: the extra
/// field's text, else the named field, else the empty text.
pub open spec fn ipn_value(d: IpnModel, key: Seq<char>) -> Seq<char> {
    match extra_value(d.extra, key) {
        Some(v) => v,
        None => match named_value(d, key) {
            Some(v) => v,
            None => Seq::empty(),
        },
    }
}

/// The pieces of `s` between occurrences of `sep` (one more piece than
/// there are separators; pieces may be empty).
pub open spec fn split_on(s: Seq<char>, sep: char) -> Seq<Seq<char>>
    decreases s.len(),
{
    if s.len() == 0 {
        seq![Seq::<char>::empty()]
    } else {
        let prev = split_on(s.drop_last(), sep);
        if s.last() == sep {
            prev.push(Seq::empty())
        } else {
            prev.update(prev.len() - 1, prev.last().push(s.last()))
        }
    }
}

/// The texts joined with `sep` between consecutive ones.
pub open spec fn join_with(v: Seq<Seq<char>>, sep: char) -> Seq<char>
    decreases v.len(),
{
    if v.len() == 0 {
        Seq::empty()
    } else if v.len() == 1 {
        v[0]
    } else {
        join_with(v.drop_last(), sep) + seq![sep] + v.last()
    }
}

/// The values that the keys contribute, in order.
pub open spec fn signed_values(d: IpnModel, keys: Seq<Seq<char>>) -> Seq<Seq<char>> {
    keys.map_values(|k: Seq<char>| ipn_value(d, k))
}

/// The message signed under the keys `keys`: their values joined with `&`,
/// followed by the store password.
pub open spec fn keyed_message(d: IpnModel, keys: Seq<Seq<char>>, passwd: Seq<char>) -> Seq<char> {
    join_with(signed_values(d, keys), '&') + passwd
}

/// The keys listed in a `verify_key` text: split at commas, each trimmed.
pub open spec fn listed_keys(keys: Seq<char>) -> Seq<Seq<char>> {
    split_on(keys, ',').map_values(|k: Seq<char>| trimmed(k))
}

/// The message the notification's signature covers: the values of the keys
/// listed in `verify_key` joined with `&`, followed by the store password.
/// `None` when the signature or the key list is missing.
pub open spec fn ipn_signature_message(d: IpnModel, passwd: Seq<char>) -> Option<Seq<char>> {
    match (d.verify_sign, d.verify_key) {
        (Some(_), Some(keys)) => Some(keyed_message(d, listed_keys(keys), passwd)),
        _ => None,
    }
}

/// The fields read into named fields never reappear among the extra fields,
/// and every extra field carries a string.
pub proof fn lemma_extra_entries_are_unnamed(s: Seq<(Seq<char>, Seq<char>)>)
    ensures
        forall|i: int| 0 <= i < extra_entries(s).len() ==> !is_named_ipn_key(#[trigger] extra_entries(s)[i].0),
        forall|i: int| 0 <= i < extra_entries(s).len() ==> (#[trigger] extra_entries(s)[i]).1 is Some,
    decreases s.len(),
{
    if s.len() > 0 {
        lemma_extra_entries_are_unnamed(s.drop_last());
    }
}

/// The value stored under `key` in the pairs from position `i` on.
proof fn lemma_pair_value_skip(s: Seq<(Seq<char>, Seq<char>)>, key: Seq<char>, i: int)
    requires
        0 <= i < s.len(),
    ensures
        pair_value(s.skip(i), key) == if s[i].0 == key {
            Some(s[i].1)
        } else {
            pair_value(s.skip(i + 1), key)
        },
{
    assert(s.skip(i).drop_first() =~= s.skip(i + 1));
}

/// True when no key occurs twice among the pairs (they are the entries of a
/// map).
pub open spec fn distinct_keys(s: Seq<(Seq<char>, Seq<char>)>) -> bool {
    forall|i: int, j: int| 0 <= i < j < s.len() ==> #[trigger] s[i].0 != #[trigger] s[j].0
}

/// The texts of the pairs (key, value) of a list of string pairs.
pub open spec fn string_pairs_view(v: Seq<(String, String)>) -> Seq<(Seq<char>, Seq<char>)> {
    v.map_values(|p: (String, String)| (p.0@, p.1@))
}

/// The value stored under `key`.
fn lookup_pair(data: &Vec<(String, String)>, key: &str) -> (r: Option<String>)
    ensures
        r.deep_view() == pair_value(string_pairs_view(data@), key@),
{
    let ghost s = string_pairs_view(data@);
    let mut i: usize = 0;
    assert(s.skip(0) =~= s);
    while i < data.len()
        invariant
            s == string_pairs_view(data@),
            i <= data.len(),
            pair_value(s, key@) == pair_value(s.skip(i as int), key@),
        decreases data.len() - i,
    {
        proof { lemma_pair_value_skip(s, key@, i as int); }
        if str_eq(data[i].0.as_str(), key) {
            return Some(data[i].1.clone());
        }
        i = i + 1;
    }
    assert(s.skip(i as int) =~= Seq::<(Seq<char>, Seq<char>)>::empty());
    None
}

/// True when `k` is read into a named field.
fn named_ipn_key(k: &str) -> (b: bool)
    ensures
        b == is_named_ipn_key(k@),
{
    str_eq(k, "val_id") || str_eq(k, "tran_id") || str_eq(k, "transaction_id") || str_eq(k, "status")
        || str_eq(k, "amount") || str_eq(k, "currency") || str_eq(k, "card_issuer_country")
        || str_eq(k, "store_amount") || str_eq(k, "verify_sign") || str_eq(k, "verify_key")
}

impl SslcIpnData {
    /// Read a notification from its received fields (distinct keys): the
    /// known keys fill the named fields (`tran_id`, else `transaction_id`,
    /// for the transaction id) and every other field goes to `extra`.
    pub fn from_pairs(data: &Vec<(String, String)>) -> (d: SslcIpnData)
        requires
            distinct_keys(string_pairs_view(data@)),
        ensures
            d@ == ipn_from_pairs(string_pairs_view(data@)),
    {
        let ghost s = string_pairs_view(data@);
        let transaction_id = match lookup_pair(data, "tran_id") {
            Some(v) => Some(v),
            None => lookup_pair(data, "transaction_id"),
        };
        let mut extra: Vec<(String, Option<String>)> = Vec::new();
        let mut i: usize = 0;
        assert(s.take(0) =~= Seq::<(Seq<char>, Seq<char>)>::empty());
        while i < data.len()
            invariant
                s == string_pairs_view(data@),
                i <= data.len(),
                extra_view(extra@) == extra_entries(s.take(i as int)),
            decreases data.len() - i,
        {
            assert(s.take(i + 1).drop_last() =~= s.take(i as int));
            assert(s.take(i + 1).last() == s[i as int]);
            if !named_ipn_key(data[i].0.as_str()) {
                let entry = (data[i].0.clone(), Some(data[i].1.clone()));
                extra.push(entry);
                assert(extra_view(extra@) =~= extra_entries(s.take(i + 1)));
            }
            i = i + 1;
        }
        assert(s.take(data.len() as int) =~= s);
        SslcIpnData {
            val_id: lookup_pair(data, "val_id"),
            transaction_id,
            status: lookup_pair(data, "status"),
            amount: lookup_pair(data, "amount"),
            currency: lookup_pair(data, "currency"),
            card_issuer_country: lookup_pair(data, "card_issuer_country"),
            store_amount: lookup_pair(data, "store_amount"),
            verify_sign: lookup_pair(data, "verify_sign"),
            verify_key: lookup_pair(data, "verify_key"),
            extra,
        }
    }
}


/// The value stored under `key` in the extra fields from position `i` on.
proof fn lemma_extra_value_skip(e: Seq<(Seq<char>, Option<Seq<char>>)>, key: Seq<char>, i: int)
    requires
        0 <= i < e.len(),
    ensures
        extra_value(e.skip(i), key) == if e[i].0 == key {
            e[i].1
        } else {
            extra_value(e.skip(i + 1), key)
        },
{
    assert(e.skip(i).drop_first() =~= e.skip(i + 1));
}

/// A copy of an optional string.
fn opt_clone(o: &Option<String>) -> (r: Option<String>)
    ensures
        r.deep_view() == o.deep_view(),
{
    match o {
        Some(s) => Some(s.clone()),
        None => None,
    }
}

/// The text of the extra field `key`, when there is one and it is a string.
fn lookup_extra(extra: &Vec<(String, Option<String>)>, key: &str) -> (r: Option<String>)
    ensures
        r.deep_view() == extra_value(extra_view(extra@), key@),
{
    let ghost e = extra_view(extra@);
    let mut i: usize = 0;
    assert(e.skip(0) =~= e);
    while i < extra.len()
        invariant
            e == extra_view(extra@),
            i <= extra.len(),
            extra_value(e, key@) == extra_value(e.skip(i as int), key@),
        decreases extra.len() - i,
    {
        proof { lemma_extra_value_skip(e, key@, i as int); }
        if str_eq(extra[i].0.as_str(), key) {
            return opt_clone(&extra[i].1);
        }
        i = i + 1;
    }
    assert(e.skip(i as int) =~= Seq::<(Seq<char>, Option<Seq<char>>)>::empty());
    None
}

/// The pieces of `s` between commas.
fn split_commas(s: &str) -> (pieces: Vec<&str>)
    ensures
        pieces@.map_values(|p: &str| p@) == split_on(s@, ','),
{
    let n = s.unicode_len();
    let mut pieces: Vec<&str> = Vec::new();
    let mut start: usize = 0;
    let mut i: usize = 0;
    assert(s@.take(0) =~= Seq::<char>::empty());
    assert(pieces@.map_values(|p: &str| p@).push(s@.subrange(0, 0)) =~= seq![Seq::<char>::empty()]);
    while i < n
        invariant
            n == s@.len(),
            start <= i <= n,
            pieces@.map_values(|p: &str| p@).push(s@.subrange(start as int, i as int)) == split_on(
                s@.take(i as int),
                ',',
            ),
        decreases n - i,
    {
        let ghost before = pieces@.map_values(|p: &str| p@);
        let c = s.get_char(i);
        assert(s@.take(i + 1).drop_last() =~= s@.take(i as int));
        assert(s@.take(i + 1).last() == c);
        if c == ',' {
            let piece = s.substring_char(start, i);
            pieces.push(piece);
            assert(pieces@.map_values(|p: &str| p@) =~= before.push(s@.subrange(start as int, i as int)));
            start = i + 1;
            assert(s@.subrange(start as int, i + 1) =~= Seq::<char>::empty());
            assert(split_on(s@.take(i + 1), ',') == split_on(s@.take(i as int), ',').push(Seq::<char>::empty()));
            assert(pieces@.map_values(|p: &str| p@).push(s@.subrange(start as int, i + 1)) =~= split_on(
                s@.take(i + 1),
                ',',
            ));
        } else {
            assert(s@.subrange(start as int, i as int).push(c) =~= s@.subrange(start as int, i + 1));
            assert(before.push(s@.subrange(start as int, i + 1)) =~= split_on(s@.take(i + 1), ','));
        }
        i = i + 1;
    }
    let ghost before = pieces@.map_values(|p: &str| p@);
    let last = s.substring_char(start, n);
    pieces.push(last);
    assert(pieces@.map_values(|p: &str| p@) =~= before.push(s@.subrange(start as int, n as int)));
    assert(s@.take(n as int) =~= s@);
    pieces
}

impl SslcIpnData {
    /// The named field that stands for `key`.
    fn named_field(&self, key: &str) -> (r: Option<String>)
        ensures
            r.deep_view() == named_value(self@, key@),
    {
        if str_eq(key, "val_id") {
            opt_clone(&self.val_id)
        } else if str_eq(key, "tran_id") {
            opt_clone(&self.transaction_id)
        } else if str_eq(key, "status") {
            opt_clone(&self.status)
        } else if str_eq(key, "amount") {
            opt_clone(&self.amount)
        } else if str_eq(key, "currency") {
            opt_clone(&self.currency)
        } else if str_eq(key, "store_amount") {
            opt_clone(&self.store_amount)
        } else {
            None
        }
    }

    /// The value that the key `key` contributes to the signed message: the
    /// extra field's text, else the named field, else the empty text.
    pub fn signed_value(&self, key: &str) -> (v: String)
        ensures
            v@ == ipn_value(self@, key@),
    {
        match lookup_extra(&self.extra, key) {
            Some(v) => v,
            None => match self.named_field(key) {
                Some(v) => v,
                None => String::new(),
            },
        }
    }

    /// The message signed under the (already trimmed) keys `keys`, with the
    /// store password `passwd`.
    pub fn keyed_message(&self, keys: &Vec<String>, passwd: &str) -> (m: String)
        ensures
            m@ == keyed_message(self@, keys@.map_values(|k: String| k@), passwd@),
    {
        let ghost kv = keys@.map_values(|k: String| k@);
        let mut message = String::new();
        let mut i: usize = 0;
        assert(signed_values(self@, kv.take(0)) =~= Seq::<Seq<char>>::empty());
        while i < keys.len()
            invariant
                i <= keys.len(),
                kv == keys@.map_values(|k: String| k@),
                message@ == join_with(signed_values(self@, kv.take(i as int)), '&'),
            decreases keys.len() - i,
        {
            let ghost prev = signed_values(self@, kv.take(i as int));
            let ghost before = message@;
            let value = self.signed_value(keys[i].as_str());
            if i > 0 {
                proof { reveal_strlit("&"); }
                message.append("&");
            }
            message.append(value.as_str());
            assert(signed_values(self@, kv.take(i + 1)) =~= prev.push(value@));
            assert(prev.push(value@).drop_last() =~= prev);
            if i == 0 {
                assert(message@ =~= value@);
            } else {
                assert(message@ =~= before + seq!['&'] + value@);
            }
            i = i + 1;
        }
        assert(kv.take(keys.len() as int) =~= kv);
        message.append(passwd);
        message
    }

    /// The message the signature covers, with the store password `passwd`:
    /// `None` when the signature or the key list is missing.
    pub fn signature_message(&self, passwd: &str) -> (m: Option<String>)
        ensures
            m.deep_view() == ipn_signature_message(self@, passwd@),
    {
        if self.verify_sign.is_none() {
            return None;
        }
        let list = match &self.verify_key {
            Some(k) => k,
            None => {
                return None;
            },
        };
        let pieces = split_commas(list.as_str());
        let ghost pv = pieces@.map_values(|p: &str| p@);
        let mut keys: Vec<String> = Vec::new();
        let mut i: usize = 0;
        while i < pieces.len()
            invariant
                i <= pieces.len(),
                pv == pieces@.map_values(|p: &str| p@),
                keys@.map_values(|k: String| k@) == pv.take(i as int).map_values(|k: Seq<char>| trimmed(k)),
            decreases pieces.len() - i,
        {
            let ghost before = keys@.map_values(|k: String| k@);
            let key = trim(pieces[i]);
            keys.push(key.to_owned());
            assert(keys@.map_values(|k: String| k@) =~= before.push(trimmed(pv[i as int])));
            assert(pv.take(i + 1).map_values(|k: Seq<char>| trimmed(k)) =~= pv.take(i as int).map_values(
                |k: Seq<char>| trimmed(k),
            ).push(trimmed(pv[i as int])));
            i = i + 1;
        }
        assert(pv.take(pieces.len() as int) =~= pv);
        Some(self.keyed_message(&keys, passwd))
    }
}

/// The keys of the fields a notification reads into named fields.
pub open spec fn ipn_field_keys() -> Seq<Seq<char>> {
    seq![
        "val_id"@,
        "tran_id"@,
        "transaction_id"@,
        "status"@,
        "amount"@,
        "currency"@,
        "card_issuer_country"@,
        "store_amount"@,
        "verify_sign"@,
        "verify_key"@,
    ]
}

/// A key is read into a named field exactly when it is one of the ten field
/// keys; any other received key, `bank_tran_id` among them, is not.
pub proof fn lemma_named_keys_exact(k: Seq<char>)
    ensures
        is_named_ipn_key(k) <==> ipn_field_keys().contains(k),
{
    reveal_strlit("val_id");
    reveal_strlit("tran_id");
    reveal_strlit("transaction_id");
    reveal_strlit("status");
    reveal_strlit("amount");
    reveal_strlit("currency");
    reveal_strlit("card_issuer_country");
    reveal_strlit("store_amount");
    reveal_strlit("verify_sign");
    reveal_strlit("verify_key");
    if ipn_field_keys().contains(k) {
        let i = choose|i: int| 0 <= i < 10 && ipn_field_keys()[i] == k;
        assert(0 <= i < 10);
    }
    if is_named_ipn_key(k) {
        if k == "val_id"@ { assert(ipn_field_keys()[0] == k); }
        if k == "tran_id"@ { assert(ipn_field_keys()[1] == k); }
        if k == "transaction_id"@ { assert(ipn_field_keys()[2] == k); }
        if k == "status"@ { assert(ipn_field_keys()[3] == k); }
        if k == "amount"@ { assert(ipn_field_keys()[4] == k); }
        if k == "currency"@ { assert(ipn_field_keys()[5] == k); }
        if k == "card_issuer_country"@ { assert(ipn_field_keys()[6] == k); }
        if k == "store_amount"@ { assert(ipn_field_keys()[7] == k); }
        if k == "verify_sign"@ { assert(ipn_field_keys()[8] == k); }
        if k == "verify_key"@ { assert(ipn_field_keys()[9] == k); }
    }
}

/// Every received pair whose key is not a field key appears in the extra
/// fields, with its text.
pub proof fn lemma_extra_entries_complete(s: Seq<(Seq<char>, Seq<char>)>, i: int)
    requires
        0 <= i < s.len(),
        !ipn_field_keys().contains(s[i].0),
    ensures
        extra_entries(s).contains((s[i].0, Some(s[i].1))),
    decreases s.len(),
{
    lemma_named_keys_exact(s[i].0);
    let prev = extra_entries(s.drop_last());
    if i == s.len() - 1 {
        assert(extra_entries(s) == prev.push((s[i].0, Some(s[i].1))));
        assert(extra_entries(s)[prev.len() as int] == (s[i].0, Some(s[i].1)));
    } else {
        assert(s.drop_last()[i] == s[i]);
        lemma_extra_entries_complete(s.drop_last(), i);
        let k = choose|k: int| 0 <= k < prev.len() && prev[k] == (s[i].0, Some(s[i].1));
        if is_named_ipn_key(s.last().0) {
            assert(extra_entries(s) == prev);
        } else {
            assert(extra_entries(s) == prev.push((s.last().0, Some(s.last().1))));
            assert(extra_entries(s)[k] == prev[k]);
        }
    }
}

/// The pairs whose key is not a field key.
pub open spec fn unnamed_pairs(s: Seq<(Seq<char>, Seq<char>)>) -> Seq<(Seq<char>, Seq<char>)> {
    s.filter(|p: (Seq<char>, Seq<char>)| !ipn_field_keys().contains(p.0))
}

/// The extra fields are exactly the received pairs whose key is not a field
/// key, in the order received, each with its text.
pub proof fn lemma_extra_entries_exact(s: Seq<(Seq<char>, Seq<char>)>)
    ensures
        extra_entries(s) == unnamed_pairs(s).map_values(
            |p: (Seq<char>, Seq<char>)| (p.0, Some(p.1)),
        ),
    decreases s.len(),
{
    reveal(Seq::filter);
    let f = |p: (Seq<char>, Seq<char>)| (p.0, Some(p.1));
    if s.len() == 0 {
        assert(unnamed_pairs(s).map_values(f) =~= Seq::<(Seq<char>, Option<Seq<char>>)>::empty());
    } else {
        lemma_extra_entries_exact(s.drop_last());
        lemma_named_keys_exact(s.last().0);
        let prev = unnamed_pairs(s.drop_last());
        if ipn_field_keys().contains(s.last().0) {
            assert(unnamed_pairs(s) == prev);
        } else {
            assert(unnamed_pairs(s) == prev.push(s.last()));
            assert(prev.push(s.last()).map_values(f) =~= prev.map_values(f).push(f(s.last())));
        }
    }
}

/// Each named key contributes its own field when no extra field gives it:
/// `val_id`, `tran_id` (the transaction id), `status`, `amount`, `currency`
/// and `store_amount`; any other key without an extra field contributes the
/// empty text.
pub proof fn lemma_named_keys_give_their_fields(d: IpnModel, k: Seq<char>)
    ensures
        named_value(d, "val_id"@) == d.val_id,
        named_value(d, "tran_id"@) == d.transaction_id,
        named_value(d, "status"@) == d.status,
        named_value(d, "amount"@) == d.amount,
        named_value(d, "currency"@) == d.currency,
        named_value(d, "store_amount"@) == d.store_amount,
        k != "val_id"@ && k != "tran_id"@ && k != "status"@ && k != "amount"@ && k != "currency"@ && k
            != "store_amount"@ ==> named_value(d, k) is None,
        extra_value(d.extra, "store_amount"@) is None ==> ipn_value(d, "store_amount"@) == match d.store_amount {
            Some(v) => v,
            None => Seq::<char>::empty(),
        },
        extra_value(d.extra, "amount"@) is None ==> ipn_value(d, "amount"@) == match d.amount {
            Some(v) => v,
            None => Seq::<char>::empty(),
        },
{
    reveal_strlit("val_id");
    reveal_strlit("tran_id");
    reveal_strlit("transaction_id");
    reveal_strlit("status");
    reveal_strlit("amount");
    reveal_strlit("currency");
    reveal_strlit("card_issuer_country");
    reveal_strlit("store_amount");
    reveal_strlit("verify_sign");
    reveal_strlit("verify_key");
    assert("store_amount"@.len() != "val_id"@.len());
    assert("store_amount"@[0] != "amount"@[0]);
    assert("store_amount"@[0] != "tran_id"@[0]);
    assert("store_amount"@[2] != "status"@[2]);
    assert("store_amount"@.len() != "currency"@.len());
    assert("amount"@[0] != "val_id"@[0]);
    assert("amount"@.len() != "tran_id"@.len());
    assert("amount"@[0] != "status"@[0]);
    assert("currency"@[0] != "val_id"@[0]);
    assert("currency"@[0] != "tran_id"@[0]);
    assert("currency"@[0] != "status"@[0]);
    assert("currency"@[0] != "amount"@[0]);
    assert("status"@[0] != "val_id"@[0]);
    assert("status"@[0] != "tran_id"@[0]);
    assert("tran_id"@[0] != "val_id"@[0]);
}

} // verus!
