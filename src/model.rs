//! Value types of the order aggregate and their wire forms.
use vstd::prelude::*;

verus! {

/// Money is always an integer amount of minor currency units.
pub type Money = i32;

/// Why a value was refused at construction.
#[derive(Clone, Copy, Debug, PartialEq, Eq, Structural)]
pub enum ValidationError {
    PercentOutOfRange(i16),
    PhoneWithoutPlus,
    UnknownLocale,
    UnknownCurrency,
    UnknownItemStatus,
}

/// An integer percentage within `0..=100`.
#[derive(Clone, Copy, Debug, PartialEq, Eq, Structural)]
pub struct Percent {
    value: i16,
}

impl Percent {
    /// The integer that this percentage holds.
    pub closed spec fn spec_value(self) -> i16 {
        self.value
    }

    #[verifier::type_invariant]
    closed spec fn in_range(self) -> bool {
        0 <= self.value <= 100
    }

    /// Accepts exactly the integers of `0..=100`.
    pub fn try_from(value: i16) -> (r: Result<Percent, ValidationError>)
        ensures
            (0 <= value <= 100) <==> r is Ok,
            r is Ok ==> r->Ok_0.spec_value() == value,
            r is Err ==> r->Err_0 == ValidationError::PercentOutOfRange(value),
    {
        if 0 <= value && value <= 100 {
            Ok(Percent { value })
        } else {
            Err(ValidationError::PercentOutOfRange(value))
        }
    }

    pub fn value(&self) -> (r: i16)
        ensures
            r == self.spec_value(),
            0 <= r <= 100,
    {
        proof {
            use_type_invariant(self);
        }
        self.value
    }
}

/// Two percentages holding the same integer are the same value.
pub proof fn lemma_percent_value_determines(a: Percent, b: Percent)
    requires
        a.spec_value() == b.spec_value(),
    ensures
        a == b,
{
}

/// True when `s` is exactly the characters of `lit`.
pub fn str_equals(s: &str, lit: &str) -> (r: bool)
    ensures
        r == (s@ == lit@),
{
    let n = s.unicode_len();
    let m = lit.unicode_len();
    if n != m {
        return false;
    }
    let mut i: usize = 0;
    while i < n
        invariant
            n == s@.len(),
            m == lit@.len(),
            n == m,
            i <= n,
            forall|j: int| 0 <= j < i ==> s@[j] == lit@[j],
        decreases n - i,
    {
        if s.get_char(i) != lit.get_char(i) {
            return false;
        }
        i = i + 1;
    }
    proof {
        assert(s@ =~= lit@);
    }
    true
}

/// Language of an order. Its wire form is the lower-case code.
#[derive(Clone, Copy, Debug, PartialEq, Eq, Structural)]
pub enum Locale {
    EN,
    RU,
    ZH,
}

pub open spec fn locale_wire(l: Locale) -> Seq<char> {
    match l {
        Locale::EN => seq!['e', 'n'],
        Locale::RU => seq!['r', 'u'],
        Locale::ZH => seq!['z', 'h'],
    }
}

impl Locale {
    pub fn wire(&self) -> (r: String)
        ensures
            r@ == locale_wire(*self),
    {
        match self {
            Locale::EN => {
                proof {
                    reveal_strlit("en");
                }
                String::from_str("en")
            },
            Locale::RU => {
                proof {
                    reveal_strlit("ru");
                }
                String::from_str("ru")
            },
            Locale::ZH => {
                proof {
                    reveal_strlit("zh");
                }
                String::from_str("zh")
            },
        }
    }

    /// Reads a wire form; any other text, whatever its case, is refused.
    pub fn from_wire(s: &str) -> (r: Result<Locale, ValidationError>)
        ensures
            forall|l: Locale| (r == Ok::<Locale, ValidationError>(l)) <==> s@ == locale_wire(l),
            r is Err ==> r->Err_0 == ValidationError::UnknownLocale,
    {
        proof {
            reveal_strlit("en");
            reveal_strlit("ru");
            reveal_strlit("zh");
            assert("en"@ =~= locale_wire(Locale::EN));
            assert("ru"@ =~= locale_wire(Locale::RU));
            assert("zh"@ =~= locale_wire(Locale::ZH));
            assert forall|l: Locale, m: Locale| locale_wire(l) == locale_wire(m) implies l == m by {
                lemma_locale_wire_injective(l, m);
            }
        }
        if str_equals(s, "en") {
            Ok(Locale::EN)
        } else if str_equals(s, "ru") {
            Ok(Locale::RU)
        } else if str_equals(s, "zh") {
            Ok(Locale::ZH)
        } else {
            Err(ValidationError::UnknownLocale)
        }
    }
}

/// Currency of a payment. Its wire form is the upper-case code.
#[derive(Clone, Copy, Debug, PartialEq, Eq, Structural)]
pub enum Currency {
    USD,
    RU,
}

pub open spec fn currency_wire(c: Currency) -> Seq<char> {
    match c {
        Currency::USD => seq!['U', 'S', 'D'],
        Currency::RU => seq!['R', 'U'],
    }
}

impl Currency {
    pub fn wire(&self) -> (r: String)
        ensures
            r@ == currency_wire(*self),
    {
        match self {
            Currency::USD => {
                proof {
                    reveal_strlit("USD");
                }
                String::from_str("USD")
            },
            Currency::RU => {
                proof {
                    reveal_strlit("RU");
                }
                String::from_str("RU")
            },
        }
    }

    /// Reads a wire form; any other text, whatever its case, is refused.
    pub fn from_wire(s: &str) -> (r: Result<Currency, ValidationError>)
        ensures
            forall|c: Currency|
                (r == Ok::<Currency, ValidationError>(c)) <==> s@ == currency_wire(c),
            r is Err ==> r->Err_0 == ValidationError::UnknownCurrency,
    {
        proof {
            reveal_strlit("USD");
            reveal_strlit("RU");
            assert("USD"@ =~= currency_wire(Currency::USD));
            assert("RU"@ =~= currency_wire(Currency::RU));
            assert forall|c: Currency, d: Currency| currency_wire(c) == currency_wire(d) implies c
                == d by {
                lemma_currency_wire_injective(c, d);
            }
        }
        if str_equals(s, "USD") {
            Ok(Currency::USD)
        } else if str_equals(s, "RU") {
            Ok(Currency::RU)
        } else {
            Err(ValidationError::UnknownCurrency)
        }
    }
}

/// Status of an item. Its wire form is the bare integer code.
#[derive(Clone, Copy, Debug, PartialEq, Eq, Structural)]
pub enum ItemStatus {
    StatusCode,
}

pub open spec fn status_code(s: ItemStatus) -> u16 {
    match s {
        ItemStatus::StatusCode => 202,
    }
}

impl ItemStatus {
    pub fn code(&self) -> (r: u16)
        ensures
            r == status_code(*self),
    {
        match self {
            ItemStatus::StatusCode => 202,
        }
    }

    /// Reads an integer code; only the recognised codes are accepted.
    pub fn from_code(code: i64) -> (r: Result<ItemStatus, ValidationError>)
        ensures
            forall|s: ItemStatus|
                (r == Ok::<ItemStatus, ValidationError>(s)) <==> code == status_code(s) as i64,
            r is Err ==> r->Err_0 == ValidationError::UnknownItemStatus,
    {
        if code == 202 {
            Ok(ItemStatus::StatusCode)
        } else {
            Err(ValidationError::UnknownItemStatus)
        }
    }
}

/// A phone number is kept as written, but must start with `+`.
pub open spec fn phone_ok(phone: Seq<char>) -> bool {
    phone.len() > 0 && phone[0] == '+'
}

pub fn check_phone(phone: &str) -> (r: Result<(), ValidationError>)
    ensures
        r is Ok <==> phone_ok(phone@),
        r is Err ==> r->Err_0 == ValidationError::PhoneWithoutPlus,
{
    if phone.unicode_len() > 0 && phone.get_char(0) == '+' {
        Ok(())
    } else {
        Err(ValidationError::PhoneWithoutPlus)
    }
}

/// A point in time in UTC: seconds since the Unix epoch and the nanoseconds past them.
#[derive(Clone, Copy, Debug, PartialEq, Eq, Structural)]
pub struct Timestamp {
    pub secs: i64,
    pub nanos: u32,
}

#[derive(Clone, Debug, PartialEq)]
pub struct Delivery {
    /// Row identifier given by the store; never part of the wire form.
    pub id: Option<i32>,
    pub name: String,
    pub phone: String,
    pub zip: String,
    pub city: String,
    pub address: String,
    pub region: String,
    pub email: String,
}

#[derive(Clone, Debug, PartialEq)]
pub struct Payment {
    pub transaction: String,
    pub request_id: String,
    pub currency: Currency,
    pub provider: String,
    pub amount: Money,
    pub payment_dt: i32,
    pub bank: String,
    pub delivery_cost: Money,
    pub goods_total: Money,
    pub custom_fee: Percent,
}

#[derive(Clone, Debug, PartialEq)]
pub struct Item {
    /// Row identifier given by the store; never part of the wire form.
    pub id: Option<i32>,
    pub chrt_id: i32,
    pub track_number: String,
    pub price: Money,
    pub rid: String,
    pub name: String,
    pub sale: Percent,
    pub size: String,
    pub total_price: Money,
    pub nm_id: i32,
    pub brand: String,
    pub status: ItemStatus,
}

#[derive(Clone, Debug, PartialEq)]
pub struct Order {
    pub order_uid: String,
    pub track_number: String,
    pub entry: String,
    pub delivery: Delivery,
    pub payment: Payment,
    pub items: Vec<Item>,
    pub locale: Locale,
    pub internal_signature: String,
    pub customer_id: String,
    pub delivery_service: String,
    pub shardkey: String,
    pub sm_id: i32,
    pub date_created: Timestamp,
    pub oof_shard: String,
}

impl Delivery {
    /// The delivery as the wire form carries it: without its row identifier.
    pub open spec fn content(self) -> Delivery {
        Delivery { id: None, ..self }
    }

    pub open spec fn valid(self) -> bool {
        phone_ok(self.phone@)
    }

    pub fn copy(&self) -> (r: Delivery)
        ensures
            r == *self,
    {
        Delivery {
            id: self.id,
            name: self.name.clone(),
            phone: self.phone.clone(),
            zip: self.zip.clone(),
            city: self.city.clone(),
            address: self.address.clone(),
            region: self.region.clone(),
            email: self.email.clone(),
        }
    }
}

impl Payment {
    pub fn copy(&self) -> (r: Payment)
        ensures
            r == *self,
    {
        Payment {
            transaction: self.transaction.clone(),
            request_id: self.request_id.clone(),
            currency: self.currency,
            provider: self.provider.clone(),
            amount: self.amount,
            payment_dt: self.payment_dt,
            bank: self.bank.clone(),
            delivery_cost: self.delivery_cost,
            goods_total: self.goods_total,
            custom_fee: self.custom_fee,
        }
    }
}

impl Item {
    /// The item as the wire form carries it: without its row identifier.
    pub open spec fn content(self) -> Item {
        Item { id: None, ..self }
    }

    pub fn copy(&self) -> (r: Item)
        ensures
            r == *self,
    {
        Item {
            id: self.id,
            chrt_id: self.chrt_id,
            track_number: self.track_number.clone(),
            price: self.price,
            rid: self.rid.clone(),
            name: self.name.clone(),
            sale: self.sale,
            size: self.size.clone(),
            total_price: self.total_price,
            nm_id: self.nm_id,
            brand: self.brand.clone(),
            status: self.status,
        }
    }
}

/// The contents of a sequence of items, without their row identifiers.
pub open spec fn items_content(items: Seq<Item>) -> Seq<Item> {
    items.map_values(|i: Item| i.content())
}

pub fn copy_items(items: &Vec<Item>) -> (r: Vec<Item>)
    ensures
        r@ == items@,
{
    let mut out: Vec<Item> = Vec::new();
    let mut k: usize = 0;
    while k < items.len()
        invariant
            k <= items@.len(),
            out@ == items@.subrange(0, k as int),
        decreases items@.len() - k,
    {
        out.push(items[k].copy());
        k = k + 1;
    }
    proof {
        assert(out@ =~= items@);
    }
    out
}

impl Order {
    /// Same order, compared field by field, with the item sequences compared as sequences.
    pub open spec fn same_as(self, other: Order) -> bool {
        &&& self.order_uid@ == other.order_uid@
        &&& self.track_number@ == other.track_number@
        &&& self.entry@ == other.entry@
        &&& self.delivery == other.delivery
        &&& self.payment == other.payment
        &&& self.items@ == other.items@
        &&& self.locale == other.locale
        &&& self.internal_signature@ == other.internal_signature@
        &&& self.customer_id@ == other.customer_id@
        &&& self.delivery_service@ == other.delivery_service@
        &&& self.shardkey@ == other.shardkey@
        &&& self.sm_id == other.sm_id
        &&& self.date_created == other.date_created
        &&& self.oof_shard@ == other.oof_shard@
    }

    /// Same order as the wire form shows it: row identifiers are ignored.
    pub open spec fn same_content(self, other: Order) -> bool {
        &&& self.order_uid@ == other.order_uid@
        &&& self.track_number@ == other.track_number@
        &&& self.entry@ == other.entry@
        &&& self.delivery.content() == other.delivery.content()
        &&& self.payment == other.payment
        &&& items_content(self.items@) == items_content(other.items@)
        &&& self.locale == other.locale
        &&& self.internal_signature@ == other.internal_signature@
        &&& self.customer_id@ == other.customer_id@
        &&& self.delivery_service@ == other.delivery_service@
        &&& self.shardkey@ == other.shardkey@
        &&& self.sm_id == other.sm_id
        &&& self.date_created == other.date_created
        &&& self.oof_shard@ == other.oof_shard@
    }

    /// A valid order: its delivery phone starts with `+`.
    pub open spec fn valid(self) -> bool {
        self.delivery.valid()
    }

    /// Refuses an order whose delivery phone does not start with `+`.
    pub fn validate(&self) -> (r: Result<(), ValidationError>)
        ensures
            r is Ok <==> self.valid(),
            r is Err ==> r->Err_0 == ValidationError::PhoneWithoutPlus,
    {
        check_phone(self.delivery.phone.as_str())
    }

    pub fn copy(&self) -> (r: Order)
        ensures
            r.same_as(*self),
    {
        Order {
            order_uid: self.order_uid.clone(),
            track_number: self.track_number.clone(),
            entry: self.entry.clone(),
            delivery: self.delivery.copy(),
            payment: self.payment.copy(),
            items: copy_items(&self.items),
            locale: self.locale,
            internal_signature: self.internal_signature.clone(),
            customer_id: self.customer_id.clone(),
            delivery_service: self.delivery_service.clone(),
            shardkey: self.shardkey.clone(),
            sm_id: self.sm_id,
            date_created: self.date_created,
            oof_shard: self.oof_shard.clone(),
        }
    }
}

/// Distinct locales have distinct wire forms, so a wire form reads back as the locale
/// that wrote it.
pub proof fn lemma_locale_wire_injective(l: Locale, m: Locale)
    requires
        locale_wire(l) == locale_wire(m),
    ensures
        l == m,
{
    if l != m {
        assert(locale_wire(l)[0] != locale_wire(m)[0] || locale_wire(l)[1] != locale_wire(m)[1]);
    }
}

/// Distinct currencies have distinct wire forms.
pub proof fn lemma_currency_wire_injective(c: Currency, d: Currency)
    requires
        currency_wire(c) == currency_wire(d),
    ensures
        c == d,
{
    if c != d {
        assert(currency_wire(c).len() != currency_wire(d).len());
    }
}

} // verus!
