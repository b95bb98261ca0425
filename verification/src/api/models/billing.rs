//! Billing: balances, traffic usage, tariffs.
use crate::api::request_desc::{path_with_id, HttpMethod, RequestDesc};
use crate::api::table::{headers_view, row_view, rows_view, DisplayTable};
use crate::i18n::{message, tr, Lang, M};
use crate::text::{decimal, owned};
use vstd::prelude::*;

verus! {

/// Account balances by currency.
#[derive(Clone, Debug)]
pub struct BillingBalance {
    pub default_currency: Option<String>,
    /// (currency, amount) pairs.
    pub balances: Vec<(String, String)>,
}

impl DisplayTable for BillingBalance {
    fn headers(&self, lang: Lang) -> (r: Vec<&'static str>)
        ensures
            headers_view(r@) == seq![message(M::HCurrency, lang), message(M::HBalance, lang)],
    {
        let r = vec![tr(lang, M::HCurrency), tr(lang, M::HBalance)];
        assert(headers_view(r@) =~= seq![message(M::HCurrency, lang), message(M::HBalance, lang)]);
        r
    }

    fn rows(&self, lang: Lang) -> (r: Vec<Vec<String>>)
        ensures
            rows_view(r@) == self.balances@.map_values(|b: (String, String)| seq![b.0@, b.1@]),
    {
        let mut out: Vec<Vec<String>> = Vec::new();
        let mut i: usize = 0;
        while i < self.balances.len()
            invariant
                i <= self.balances.len(),
                rows_view(out@) == self.balances@.take(i as int).map_values(|b: (String, String)| seq![b.0@, b.1@]),
            decreases self.balances.len() - i,
        {
            let ghost before = out@;
            let row = vec![self.balances[i].0.clone(), self.balances[i].1.clone()];
            assert(row_view(row) =~= seq![self.balances@[i as int].0@, self.balances@[i as int].1@]);
            out.push(row);
            proof {
                assert(rows_view(out@) =~= rows_view(before).push(row_view(row)));
                assert(self.balances@.take(i + 1).map_values(|b: (String, String)| seq![b.0@, b.1@]) =~= self.balances@.take(
                    i as int,
                ).map_values(|b: (String, String)| seq![b.0@, b.1@]).push(seq![self.balances@[i as int].0@, self.balances@[i as int].1@]));
            }
            i += 1;
        }
        assert(self.balances@.take(self.balances.len() as int) =~= self.balances@);
        out
    }
}

/// A flag as a table cell: yes or no.
pub fn _bool_to_string(lang: Lang, b: bool) -> (r: String)
    ensures
        r@ == if b { message(M::Yes, lang) } else { message(M::No, lang) },
{
    if b {
        owned(tr(lang, M::Yes))
    } else {
        owned(tr(lang, M::No))
    }
}

/// `GET billing/balance`.
pub struct Billing;

impl RequestDesc for Billing {
    type Params = ();
    type Request = ();
    type Response = BillingBalance;

    fn get_url(_p: ()) -> (r: String)
        ensures
            r@ == "billing/balance"@,
    {
        owned("billing/balance")
    }

    fn method() -> (r: HttpMethod)
        ensures
            r == HttpMethod::Get,
    {
        HttpMethod::Get
    }
}

/// `GET domains/{id}/usage`: traffic usage of a domain in the current period (its figures include a ratio, read by the program).
pub struct BillingUsage;

impl RequestDesc for BillingUsage {
    type Params = i64;
    type Request = ();
    type Response = ();

    fn get_url(id: i64) -> (r: String)
        ensures
            r@ == "domains/"@ + decimal(id as int) + "/usage"@,
    {
        path_with_id("domains/", id, "/usage")
    }

    fn method() -> (r: HttpMethod)
        ensures
            r == HttpMethod::Get,
    {
        HttpMethod::Get
    }
}

/// `GET domains/{id}/tariffs`: the tariffs a domain can be on (priced in fractional amounts, read by the program).
pub struct BillingTariffs;

impl RequestDesc for BillingTariffs {
    type Params = i64;
    type Request = ();
    type Response = ();

    fn get_url(id: i64) -> (r: String)
        ensures
            r@ == "domains/"@ + decimal(id as int) + "/tariffs"@,
    {
        path_with_id("domains/", id, "/tariffs")
    }

    fn method() -> (r: HttpMethod)
        ensures
            r == HttpMethod::Get,
    {
        HttpMethod::Get
    }
}
} // verus!
