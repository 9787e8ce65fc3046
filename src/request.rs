//! Fund requests: recipient addresses, the three request shapes and their
//! normalisation into one ordered list of payouts.
use vstd::prelude::*;

verus! {

/// Whether `bitcoin` accepts the text as an address of some network.
pub uninterp spec fn address_parses(s: Seq<char>) -> bool;

/// Relies on `<bitcoin::Address<NetworkUnchecked> as FromStr>::from_str`:
/// whether the text decodes (bech32 or base58check) as an address of some
/// network. The outcome depends on the text alone.
#[verifier::external_body]
fn address_text_parses(s: &str) -> (r: bool)
    ensures
        r == address_parses(s@),
{
    s.parse::<bitcoin::Address<bitcoin::address::NetworkUnchecked>>().is_ok()
}

/// A recipient address as written by the client. It decodes as an address,
/// but which network it belongs to is checked only when a transaction is built.
#[derive(Clone, Debug)]
pub struct UncheckedAddress {
    text: String,
}

impl View for UncheckedAddress {
    type V = Seq<char>;

    closed spec fn view(&self) -> Seq<char> {
        self.text@
    }
}

impl UncheckedAddress {
    pub open spec fn wf(&self) -> bool {
        address_parses(self@)
    }

    /// Reads an address; `None` when the text is no address of any network.
    pub fn parse(s: &str) -> (r: Option<UncheckedAddress>)
        ensures
            r.is_some() <==> address_parses(s@),
            r matches Some(a) ==> a@ == s@ && a.wf(),
    {
        if address_text_parses(s) {
            Some(UncheckedAddress { text: String::from_str(s) })
        } else {
            None
        }
    }

    /// The address text, as the client wrote it.
    pub fn as_str(&self) -> (r: &str)
        ensures
            r@ == self@,
    {
        self.text.as_str()
    }

    /// A second value holding the same address.
    pub fn duplicate(&self) -> (r: UncheckedAddress)
        ensures
            r@ == self@,
    {
        UncheckedAddress { text: self.text.clone() }
    }
}

/// One payout: an address and an amount in satoshis.
pub type RecipientWithAmount = (UncheckedAddress, u64);

/// A payout as plain values.
pub open spec fn payout_view(r: RecipientWithAmount) -> (Seq<char>, u64) {
    (r.0@, r.1)
}

pub open spec fn payouts_view(rs: Seq<RecipientWithAmount>) -> Seq<(Seq<char>, u64)> {
    rs.map_values(|r: RecipientWithAmount| payout_view(r))
}

/// A JSON value of a request's parameters, as far as the request shapes
/// tell values apart.
pub enum JsonParam {
    /// A string.
    Text(String),
    /// A number that is a whole amount of satoshis.
    Amount(u64),
    /// An array.
    Array(Vec<JsonParam>),
    /// Anything else: null, a boolean, an object, another number.
    Other,
}

pub open spec fn param_address(p: JsonParam) -> Option<Seq<char>> {
    match p {
        JsonParam::Text(s) => if address_parses(s@) {
            Some(s@)
        } else {
            None
        },
        _ => None,
    }
}

pub open spec fn param_amount(p: JsonParam) -> Option<u64> {
    match p {
        JsonParam::Amount(n) => Some(n),
        _ => None,
    }
}

/// An `[address, amount]` pair.
pub open spec fn param_pair(p: JsonParam) -> Option<(Seq<char>, u64)> {
    match p {
        JsonParam::Array(xs) => if xs@.len() == 2 && param_address(xs@[0]).is_some()
            && param_amount(xs@[1]).is_some() {
            Some((param_address(xs@[0]).unwrap(), param_amount(xs@[1]).unwrap()))
        } else {
            None
        },
        _ => None,
    }
}

/// `[address, amount]`.
pub open spec fn is_single_shape(ps: Seq<JsonParam>) -> bool {
    ps.len() == 2 && param_address(ps[0]).is_some() && param_amount(ps[1]).is_some()
}

/// `[[address, ...], amount]`.
pub open spec fn is_same_amount_shape(ps: Seq<JsonParam>) -> bool {
    ps.len() == 2 && param_amount(ps[1]).is_some() && match ps[0] {
        JsonParam::Array(xs) => forall|i: int|
            0 <= i < xs@.len() ==> (#[trigger] param_address(xs@[i])).is_some(),
        _ => false,
    }
}

/// `[[address, amount], ...]`.
pub open spec fn is_multiple_shape(ps: Seq<JsonParam>) -> bool {
    forall|i: int| 0 <= i < ps.len() ==> (#[trigger] param_pair(ps[i])).is_some()
}

/// The payouts that parameters of some shape stand for, trying the shapes in
/// order.
pub open spec fn params_payouts(ps: Seq<JsonParam>) -> Option<Seq<(Seq<char>, u64)>> {
    if is_single_shape(ps) {
        Some(seq![(param_address(ps[0]).unwrap(), param_amount(ps[1]).unwrap())])
    } else if is_same_amount_shape(ps) {
        match ps[0] {
            JsonParam::Array(xs) => Some(
                xs@.map_values(
                    |x: JsonParam| (param_address(x).unwrap(), param_amount(ps[1]).unwrap()),
                ),
            ),
            _ => None,
        }
    } else if is_multiple_shape(ps) {
        Some(ps.map_values(|p: JsonParam| param_pair(p).unwrap()))
    } else {
        None
    }
}

fn address_param(p: &JsonParam) -> (r: Option<UncheckedAddress>)
    ensures
        r.is_some() == param_address(*p).is_some(),
        r matches Some(a) ==> Some(a@) == param_address(*p),
{
    match p {
        JsonParam::Text(s) => UncheckedAddress::parse(s.as_str()),
        _ => None,
    }
}

fn amount_param(p: &JsonParam) -> (r: Option<u64>)
    ensures
        r == param_amount(*p),
{
    match p {
        JsonParam::Amount(n) => Some(*n),
        _ => None,
    }
}

fn pair_param(p: &JsonParam) -> (r: Option<RecipientWithAmount>)
    ensures
        r.is_some() == param_pair(*p).is_some(),
        r matches Some(x) ==> Some(payout_view(x)) == param_pair(*p),
{
    match p {
        JsonParam::Array(xs) => {
            if xs.len() != 2 {
                return None;
            }
            match (address_param(&xs[0]), amount_param(&xs[1])) {
                (Some(a), Some(n)) => Some((a, n)),
                _ => None,
            }
        },
        _ => None,
    }
}

fn addresses_param(xs: &Vec<JsonParam>) -> (r: Option<Vec<UncheckedAddress>>)
    ensures
        r.is_some() == (forall|i: int|
            0 <= i < xs@.len() ==> (#[trigger] param_address(xs@[i])).is_some()),
        r matches Some(v) ==> v@.len() == xs@.len() && forall|i: int|
            0 <= i < xs@.len() ==> Some(#[trigger] v@[i]@) == param_address(xs@[i]),
{
    let mut v: Vec<UncheckedAddress> = Vec::new();
    let mut i: usize = 0;
    while i < xs.len()
        invariant
            i <= xs@.len(),
            v@.len() == i,
            forall|j: int| 0 <= j < i ==> Some(#[trigger] v@[j]@) == param_address(xs@[j]),
            forall|j: int| 0 <= j < i ==> (#[trigger] param_address(xs@[j])).is_some(),
        decreases xs@.len() - i,
    {
        match address_param(&xs[i]) {
            Some(a) => v.push(a),
            None => return None,
        }
        i = i + 1;
    }
    Some(v)
}

fn pairs_param(ps: &Vec<JsonParam>) -> (r: Option<Vec<RecipientWithAmount>>)
    ensures
        r.is_some() == is_multiple_shape(ps@),
        r matches Some(v) ==> v@.len() == ps@.len() && forall|i: int|
            0 <= i < ps@.len() ==> Some(payout_view(#[trigger] v@[i])) == param_pair(ps@[i]),
{
    let mut v: Vec<RecipientWithAmount> = Vec::new();
    let mut i: usize = 0;
    while i < ps.len()
        invariant
            i <= ps@.len(),
            v@.len() == i,
            forall|j: int| 0 <= j < i ==> Some(payout_view(#[trigger] v@[j])) == param_pair(ps@[j]),
            forall|j: int| 0 <= j < i ==> (#[trigger] param_pair(ps@[j])).is_some(),
        decreases ps@.len() - i,
    {
        match pair_param(&ps[i]) {
            Some(x) => v.push(x),
            None => return None,
        }
        i = i + 1;
    }
    Some(v)
}

/// The three request shapes a client may send.
pub enum FundRequestParams {
    /// Send specified amount to a single address.
    Single(RecipientWithAmount),
    /// Send the same amount to multiple addresses.
    SameAmount(Vec<UncheckedAddress>, u64),
    /// Send different amounts to multiple addresses.
    Multiple(Vec<RecipientWithAmount>),
}

/// The payouts that a request stands for, in the order the client gave them.
pub open spec fn requested_payouts(p: FundRequestParams) -> Seq<(Seq<char>, u64)> {
    match p {
        FundRequestParams::Single(r) => seq![payout_view(r)],
        FundRequestParams::SameAmount(addrs, amount) => addrs@.map_values(
            |a: UncheckedAddress| (a@, amount),
        ),
        FundRequestParams::Multiple(rs) => payouts_view(rs@),
    }
}

impl FundRequestParams {
    /// Reads a request from its parameters, trying in order
    /// `[address, amount]`, `[[address, ...], amount]` and
    /// `[[address, amount], ...]`; `None` when none of them fits.
    pub fn from_params(params: &Vec<JsonParam>) -> (r: Option<FundRequestParams>)
        ensures
            r.is_some() == params_payouts(params@).is_some(),
            r matches Some(q) ==> Some(requested_payouts(q)) == params_payouts(params@),
            r matches Some(q) ==> (is_single_shape(params@) <==> q is Single),
            r matches Some(q) ==> (!is_single_shape(params@) && is_same_amount_shape(params@)
                <==> q is SameAmount),
    {
        if params.len() == 2 {
            let amount = amount_param(&params[1]);
            if let Some(n) = amount {
                if let Some(a) = address_param(&params[0]) {
                    let q = FundRequestParams::Single((a, n));
                    assert(requested_payouts(q) =~= params_payouts(params@).unwrap());
                    return Some(q);
                }
                if let JsonParam::Array(xs) = &params[0] {
                    if let Some(addrs) = addresses_param(xs) {
                        let q = FundRequestParams::SameAmount(addrs, n);
                        assert(requested_payouts(q) =~= params_payouts(params@).unwrap());
                        return Some(q);
                    }
                }
            }
        }
        match pairs_param(params) {
            Some(rs) => {
                let q = FundRequestParams::Multiple(rs);
                assert(requested_payouts(q) =~= params_payouts(params@).unwrap());
                Some(q)
            },
            None => None,
        }
    }

    /// The request as one list of payouts, order kept, nothing merged.
    pub fn into_recipients(self) -> (r: Vec<RecipientWithAmount>)
        ensures
            payouts_view(r@) == requested_payouts(self),
    {
        match self {
            FundRequestParams::Single(recipient) => {
                let mut v: Vec<RecipientWithAmount> = Vec::new();
                v.push(recipient);
                assert(payouts_view(v@) =~= requested_payouts(self));
                v
            },
            FundRequestParams::SameAmount(addresses, amount) => {
                let mut v: Vec<RecipientWithAmount> = Vec::new();
                let mut i: usize = 0;
                while i < addresses.len()
                    invariant
                        i <= addresses@.len(),
                        v@.len() == i,
                        forall|j: int|
                            0 <= j < i ==> #[trigger] payout_view(v@[j]) == (addresses@[j]@, amount),
                    decreases addresses@.len() - i,
                {
                    v.push((addresses[i].duplicate(), amount));
                    i = i + 1;
                }
                assert(payouts_view(v@) =~= requested_payouts(FundRequestParams::SameAmount(addresses, amount)));
                v
            },
            FundRequestParams::Multiple(recipients) => recipients,
        }
    }
}

} // verus!
