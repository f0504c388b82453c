//! The user interface's forms and choices, and the rules that turn what was
//! typed into investments, schedules and alert rules.
use vstd::prelude::*;

use crate::clock::{
    local_today_text, parse_ymd_midnight, utc_date_text, utc_now, ymd_midnight_secs, TimeOfDay,
    UtcInstant, Weekday,
};
use crate::investment::{new_record_id, Game, Investment, InvestmentStatus};
use crate::schedule::{EventKind, EventRule, Frequency, PercentThreshold, TimeSchedule};
use crate::text::{
    dec, decimal, is_blank, parse_i64, parse_i64_spec, parse_u32, parse_u32_spec, parse_u64,
    parse_u64_spec, push_decimal, trim_spec, trimmed,
};

verus! {

/// Which `Frequency` to build, before its parameter is chosen.
#[derive(Debug, Clone, Copy, PartialEq, Eq, Structural)]
pub enum FrequencyKind {
    Daily,
    EveryXDays,
    Weekly,
    EveryOtherWeek,
    Monthly,
    EveryXHours,
}

impl FrequencyKind {
    /// Every kind, in the order the form lists them.
    pub fn all() -> (r: [FrequencyKind; 6])
        ensures
            r@ == seq![
                FrequencyKind::Daily,
                FrequencyKind::EveryXDays,
                FrequencyKind::Weekly,
                FrequencyKind::EveryOtherWeek,
                FrequencyKind::Monthly,
                FrequencyKind::EveryXHours,
            ],
    {
        [
            FrequencyKind::Daily,
            FrequencyKind::EveryXDays,
            FrequencyKind::Weekly,
            FrequencyKind::EveryOtherWeek,
            FrequencyKind::Monthly,
            FrequencyKind::EveryXHours,
        ]
    }

    pub open spec fn label_spec(self) -> Seq<char> {
        match self {
            FrequencyKind::Daily => "Daily"@,
            FrequencyKind::EveryXDays => "Every X days"@,
            FrequencyKind::Weekly => "Weekly"@,
            FrequencyKind::EveryOtherWeek => "Every other week"@,
            FrequencyKind::Monthly => "Monthly"@,
            FrequencyKind::EveryXHours => "Every X hours"@,
        }
    }

    /// The label the form shows for this kind.
    pub fn label(self) -> (r: &'static str)
        ensures
            r@ == self.label_spec(),
    {
        match self {
            FrequencyKind::Daily => "Daily",
            FrequencyKind::EveryXDays => "Every X days",
            FrequencyKind::Weekly => "Weekly",
            FrequencyKind::EveryOtherWeek => "Every other week",
            FrequencyKind::Monthly => "Monthly",
            FrequencyKind::EveryXHours => "Every X hours",
        }
    }
}

/// Which `EventKind` to build for a new alert rule.
#[derive(Debug, Clone, Copy, PartialEq, Eq, Structural)]
pub enum EventKindChoice {
    PriceAbove,
    PriceBelow,
    ValueAbove,
    ValueBelow,
    ProfitAboveGp,
    ProfitAbovePercent,
    SignificantMove,
}

impl EventKindChoice {
    /// Every choice, in the order the form lists them.
    pub fn all() -> (r: [EventKindChoice; 7])
        ensures
            r@ == seq![
                EventKindChoice::PriceAbove,
                EventKindChoice::PriceBelow,
                EventKindChoice::ValueAbove,
                EventKindChoice::ValueBelow,
                EventKindChoice::ProfitAboveGp,
                EventKindChoice::ProfitAbovePercent,
                EventKindChoice::SignificantMove,
            ],
    {
        [
            EventKindChoice::PriceAbove,
            EventKindChoice::PriceBelow,
            EventKindChoice::ValueAbove,
            EventKindChoice::ValueBelow,
            EventKindChoice::ProfitAboveGp,
            EventKindChoice::ProfitAbovePercent,
            EventKindChoice::SignificantMove,
        ]
    }

    pub open spec fn label_spec(self) -> Seq<char> {
        match self {
            EventKindChoice::PriceAbove => "Price above (gp)"@,
            EventKindChoice::PriceBelow => "Price below (gp)"@,
            EventKindChoice::ValueAbove => "Value above (gp, whole investment)"@,
            EventKindChoice::ValueBelow => "Value below (gp, whole investment)"@,
            EventKindChoice::ProfitAboveGp => "Profit above (gp)"@,
            EventKindChoice::ProfitAbovePercent => "Profit above (%)"@,
            EventKindChoice::SignificantMove => "Significant move (%)"@,
        }
    }

    /// The label the form shows for this choice.
    pub fn label(self) -> (r: &'static str)
        ensures
            r@ == self.label_spec(),
    {
        match self {
            EventKindChoice::PriceAbove => "Price above (gp)",
            EventKindChoice::PriceBelow => "Price below (gp)",
            EventKindChoice::ValueAbove => "Value above (gp, whole investment)",
            EventKindChoice::ValueBelow => "Value below (gp, whole investment)",
            EventKindChoice::ProfitAboveGp => "Profit above (gp)",
            EventKindChoice::ProfitAbovePercent => "Profit above (%)",
            EventKindChoice::SignificantMove => "Significant move (%)",
        }
    }

    pub open spec fn threshold_label_spec(self) -> Seq<char> {
        match self {
            EventKindChoice::PriceAbove | EventKindChoice::PriceBelow => "Single-item price (gp)"@,
            EventKindChoice::ValueAbove | EventKindChoice::ValueBelow => "Whole investment value (gp)"@,
            EventKindChoice::ProfitAboveGp => "Profit (gp)"@,
            EventKindChoice::ProfitAbovePercent | EventKindChoice::SignificantMove => "Percent (e.g. 10 for 10%)"@,
        }
    }

    /// What the threshold field of the form asks for.
    pub fn threshold_label(self) -> (r: &'static str)
        ensures
            r@ == self.threshold_label_spec(),
    {
        match self {
            EventKindChoice::PriceAbove | EventKindChoice::PriceBelow => "Single-item price (gp)",
            EventKindChoice::ValueAbove | EventKindChoice::ValueBelow => "Whole investment value (gp)",
            EventKindChoice::ProfitAboveGp => "Profit (gp)",
            EventKindChoice::ProfitAbovePercent | EventKindChoice::SignificantMove => "Percent (e.g. 10 for 10%)",
        }
    }
}

pub open spec fn weekday_label_spec(w: Weekday) -> Seq<char> {
    match w {
        Weekday::Mon => "Monday"@,
        Weekday::Tue => "Tuesday"@,
        Weekday::Wed => "Wednesday"@,
        Weekday::Thu => "Thursday"@,
        Weekday::Fri => "Friday"@,
        Weekday::Sat => "Saturday"@,
        Weekday::Sun => "Sunday"@,
    }
}

/// The name of a day of the week.
pub fn weekday_label(w: Weekday) -> (r: &'static str)
    ensures
        r@ == weekday_label_spec(w),
{
    match w {
        Weekday::Mon => "Monday",
        Weekday::Tue => "Tuesday",
        Weekday::Wed => "Wednesday",
        Weekday::Thu => "Thursday",
        Weekday::Fri => "Friday",
        Weekday::Sat => "Saturday",
        Weekday::Sun => "Sunday",
    }
}

/// The days of the week, Monday first.
pub fn all_weekdays() -> (r: [Weekday; 7])
    ensures
        r@ == seq![
            Weekday::Mon,
            Weekday::Tue,
            Weekday::Wed,
            Weekday::Thu,
            Weekday::Fri,
            Weekday::Sat,
            Weekday::Sun,
        ],
{
    [Weekday::Mon, Weekday::Tue, Weekday::Wed, Weekday::Thu, Weekday::Fri, Weekday::Sat, Weekday::Sun]
}

pub open spec fn frequency_label_spec(f: Frequency) -> Seq<char> {
    match f {
        Frequency::Daily => "Daily"@,
        Frequency::EveryXDays(x) => "Every "@ + dec(x as nat) + " days"@,
        Frequency::Weekly => "Weekly"@,
        Frequency::EveryOtherWeek => "Every other week"@,
        Frequency::Monthly => "Monthly"@,
        Frequency::EveryXHours(x) => "Every "@ + dec(x as nat) + " hours"@,
    }
}

/// How a schedule's frequency is shown, e.g. "Every 3 days".
pub fn frequency_label(f: Frequency) -> (r: String)
    ensures
        r@ == frequency_label_spec(f),
{
    match f {
        Frequency::Daily => String::from_str("Daily"),
        Frequency::EveryXDays(x) => {
            let mut s = String::from_str("Every ");
            push_decimal(&mut s, x as u64);
            s.append(" days");
            s
        },
        Frequency::Weekly => String::from_str("Weekly"),
        Frequency::EveryOtherWeek => String::from_str("Every other week"),
        Frequency::Monthly => String::from_str("Monthly"),
        Frequency::EveryXHours(x) => {
            let mut s = String::from_str("Every ");
            push_decimal(&mut s, x as u64);
            s.append(" hours");
            s
        },
    }
}

/// The frequency a form builds: the chosen kind, with an interval of at
/// least one.
pub open spec fn frequency_for_spec(kind: FrequencyKind, every_x: u32) -> Frequency {
    let x = if every_x == 0 { 1u32 } else { every_x };
    match kind {
        FrequencyKind::Daily => Frequency::Daily,
        FrequencyKind::EveryXDays => Frequency::EveryXDays(x),
        FrequencyKind::Weekly => Frequency::Weekly,
        FrequencyKind::EveryOtherWeek => Frequency::EveryOtherWeek,
        FrequencyKind::Monthly => Frequency::Monthly,
        FrequencyKind::EveryXHours => Frequency::EveryXHours(x),
    }
}

/// The frequency for a chosen kind and interval (`every_x.max(1)`).
pub fn frequency_for(kind: FrequencyKind, every_x: u32) -> (r: Frequency)
    ensures
        r == frequency_for_spec(kind, every_x),
{
    let x = if every_x == 0 { 1 } else { every_x };
    match kind {
        FrequencyKind::Daily => Frequency::Daily,
        FrequencyKind::EveryXDays => Frequency::EveryXDays(x),
        FrequencyKind::Weekly => Frequency::Weekly,
        FrequencyKind::EveryOtherWeek => Frequency::EveryOtherWeek,
        FrequencyKind::Monthly => Frequency::Monthly,
        FrequencyKind::EveryXHours => Frequency::EveryXHours(x),
    }
}

/// The time picked with the hour and minute fields
/// (`NaiveTime::from_hms_opt(hour as u32, minute as u32, 0)`).
pub fn time_from_fields(hour: i32, minute: i32) -> (r: Option<TimeOfDay>)
    ensures
        r == (if 0 <= hour < 24 && 0 <= minute < 60 {
            Some(TimeOfDay { secs: (hour * 3600 + minute * 60) as u32, frac: 0 })
        } else {
            None::<TimeOfDay>
        }),
{
    if 0 <= hour && hour < 24 && 0 <= minute && minute < 60 {
        TimeOfDay::from_hm(hour as u32, minute as u32)
    } else {
        None
    }
}

/// The form that adds an investment.
#[derive(Debug, Clone)]
pub struct NewInvestmentForm {
    pub game: Game,
    pub item_name: String,
    pub item_id: String,
    pub purchase_date: String,
    pub purchase_price: String,
    pub quantity: String,
    pub notes: String,
    /// Set when an unreadable purchase date blocked the last add.
    pub date_error: bool,
}

impl Default for NewInvestmentForm {
    /// An empty form for an RS3 item bought today (local date).
    fn default() -> (r: NewInvestmentForm)
        ensures
            r.game == Game::Rs3,
            r.item_name@.len() == 0,
            r.item_id@.len() == 0,
            r.purchase_price@.len() == 0,
            r.quantity@.len() == 0,
            r.notes@.len() == 0,
            !r.date_error,
    {
        NewInvestmentForm {
            game: Game::Rs3,
            item_name: String::new(),
            item_id: String::new(),
            purchase_date: local_today_text(),
            purchase_price: String::new(),
            quantity: String::new(),
            notes: String::new(),
            date_error: false,
        }
    }
}

/// The form that adds a summary schedule.
#[derive(Debug, Clone)]
pub struct NewScheduleForm {
    pub name: String,
    pub kind: FrequencyKind,
    pub every_x: u32,
    pub day_of_week: Weekday,
    pub hour: u32,
    pub minute: u32,
}

impl Default for NewScheduleForm {
    /// A daily "Portfolio summary" at 08:00, every 3 units, on Mondays.
    fn default() -> (r: NewScheduleForm)
        ensures
            r.name@ == "Portfolio summary"@,
            r.kind == FrequencyKind::Daily,
            r.every_x == 3,
            r.day_of_week == Weekday::Mon,
            r.hour == 8,
            r.minute == 0,
    {
        NewScheduleForm {
            name: String::from_str("Portfolio summary"),
            kind: FrequencyKind::Daily,
            every_x: 3,
            day_of_week: Weekday::Mon,
            hour: 8,
            minute: 0,
        }
    }
}

/// The form that adds an alert rule.
#[derive(Debug, Clone)]
pub struct NewEventRuleForm {
    pub name: String,
    pub kind: EventKindChoice,
    /// `None` targets every active investment; `Some(id)` one investment.
    pub target_investment_id: Option<String>,
    pub threshold: String,
    pub error: Option<String>,
}

impl Default for NewEventRuleForm {
    /// An unnamed "significant move" rule with threshold 10, for every
    /// investment.
    fn default() -> (r: NewEventRuleForm)
        ensures
            r.name@.len() == 0,
            r.kind == EventKindChoice::SignificantMove,
            r.target_investment_id is None,
            r.threshold@ == "10"@,
            r.error is None,
    {
        NewEventRuleForm {
            name: String::new(),
            kind: EventKindChoice::SignificantMove,
            target_investment_id: None,
            threshold: String::from_str("10"),
            error: None,
        }
    }
}

/// The text buffers used while an investment is edited in place.
#[derive(Debug, Clone)]
pub struct EditInvestmentForm {
    pub game: Game,
    pub item_name: String,
    pub item_id: String,
    pub purchase_date: String,
    pub purchase_price: String,
    pub quantity: String,
    pub notes: String,
    pub error: Option<String>,
}

impl EditInvestmentForm {
    /// The edit form filled from an investment: numbers in decimal, the
    /// purchase date as `YYYY-MM-DD`, absent values as empty text.
    pub fn from_investment(inv: &Investment) -> (r: EditInvestmentForm)
        requires
            inv.purchase_date.wf(),
            inv.purchase_date.in_chrono_range(),
        ensures
            r.game == inv.game,
            r.item_name@ == inv.item_name@,
            r.item_id@ == (match inv.item_id {
                Some(id) => dec(id as nat),
                None => Seq::<char>::empty(),
            }),
            r.purchase_date@ == crate::clock::utc_ymd(inv.purchase_date.secs, inv.purchase_date.nanos),
            r.purchase_price@ == dec(inv.purchase_price as nat),
            r.quantity@ == dec(inv.quantity as nat),
            r.notes@ == (match inv.notes {
                Some(n) => n@,
                None => Seq::<char>::empty(),
            }),
            r.error is None,
    {
        EditInvestmentForm {
            game: inv.game,
            item_name: inv.item_name.clone(),
            item_id: match inv.item_id {
                Some(id) => decimal(id as u64),
                None => String::new(),
            },
            purchase_date: utc_date_text(inv.purchase_date),
            purchase_price: decimal(inv.purchase_price),
            quantity: decimal(inv.quantity),
            notes: match &inv.notes {
                Some(n) => n.clone(),
                None => String::new(),
            },
            error: None,
        }
    }
}

/// Transient user-interface state that survives across frames.
#[derive(Debug, Clone)]
pub struct UiState {
    pub new_investment: NewInvestmentForm,
    pub new_schedule: NewScheduleForm,
    pub new_event_rule: NewEventRuleForm,
    pub telegram_show_secrets: bool,
    /// The investment (by ID) being edited, with its edit buffers.
    pub editing: Option<(String, EditInvestmentForm)>,
}

impl Default for UiState {
    fn default() -> (r: UiState)
        ensures
            !r.telegram_show_secrets,
            r.editing is None,
            r.new_schedule.kind == FrequencyKind::Daily,
            r.new_event_rule.kind == EventKindChoice::SignificantMove,
            r.new_investment.game == Game::Rs3,
    {
        UiState {
            new_investment: NewInvestmentForm::default(),
            new_schedule: NewScheduleForm::default(),
            new_event_rule: NewEventRuleForm::default(),
            telegram_show_secrets: false,
            editing: None,
        }
    }
}

/// Optional text: nothing when blank, the trimmed text otherwise.
pub open spec fn optional_text(s: Seq<char>) -> Option<Seq<char>> {
    if trim_spec(s).len() == 0 { None } else { Some(trim_spec(s)) }
}

fn optional_trimmed(s: &str) -> (r: Option<String>)
    ensures
        r matches Some(t) ==> optional_text(s@) == Some(t@),
        r is None ==> optional_text(s@) is None,
{
    let t = trimmed(s);
    if t.as_str().unicode_len() == 0 { None } else { Some(t) }
}

/// The number typed in a text field, or zero when it is not a `u64`.
pub open spec fn number_or_zero(s: Seq<char>) -> u64 {
    match parse_u64_spec(trim_spec(s)) {
        Some(v) => v,
        None => 0,
    }
}

/// `inv` is the investment the add form describes, bought at `date`.
pub open spec fn drafted_from(inv: Investment, form: NewInvestmentForm, date: UtcInstant) -> bool {
    &&& inv.item_name@ == trim_spec(form.item_name@)
    &&& inv.item_id == parse_u32_spec(trim_spec(form.item_id@))
    &&& inv.game == form.game
    &&& inv.purchase_date == date
    &&& inv.purchase_price == number_or_zero(form.purchase_price@)
    &&& inv.quantity == number_or_zero(form.quantity@)
    &&& (match inv.notes {
        Some(n) => optional_text(form.notes@) == Some(n@),
        None => optional_text(form.notes@) is None,
    })
    &&& inv.status == InvestmentStatus::Active
    &&& inv.current_price is None
    &&& inv.previous_price is None
    &&& inv.last_updated is None
    &&& inv.sold_price is None
    &&& inv.sold_date is None
}

/// The add form is complete: a name, and a price and quantity above zero.
pub open spec fn draft_complete(form: NewInvestmentForm) -> bool {
    &&& trim_spec(form.item_name@).len() > 0
    &&& number_or_zero(form.purchase_price@) > 0
    &&& number_or_zero(form.quantity@) > 0
}

/// The add form as it is left after an investment was added: empty, for an
/// RS3 item, with any purchase date (the default form holds today's date).
pub open spec fn form_reset(f: NewInvestmentForm) -> bool {
    &&& f.game == Game::Rs3
    &&& f.item_name@.len() == 0
    &&& f.item_id@.len() == 0
    &&& f.purchase_price@.len() == 0
    &&& f.quantity@.len() == 0
    &&& f.notes@.len() == 0
    &&& !f.date_error
}

/// The typed purchase date cannot be read.
pub open spec fn date_unreadable(form: NewInvestmentForm) -> bool {
    trim_spec(form.purchase_date@).len() > 0 && ymd_midnight_secs(trim_spec(form.purchase_date@)) is None
}

/// The purchase date an add gives: `now` for a blank date, else midnight UTC
/// of the typed date.
pub open spec fn purchase_date_for(form: NewInvestmentForm, now: UtcInstant) -> UtcInstant {
    if trim_spec(form.purchase_date@).len() == 0 {
        now
    } else {
        UtcInstant { secs: ymd_midnight_secs(trim_spec(form.purchase_date@)).unwrap(), nanos: 0 }
    }
}

/// What "Add investment" does at the moment `now`: `before` is the form as
/// typed, `after` the form left behind and `r` the investment added.
pub open spec fn submitted(
    before: NewInvestmentForm,
    after: NewInvestmentForm,
    r: Option<Investment>,
    now: UtcInstant,
) -> bool {
    &&& (r is Some <==> (!date_unreadable(before) && draft_complete(before)))
    &&& r is None ==> after == (NewInvestmentForm { date_error: date_unreadable(before), ..before })
    &&& r matches Some(inv) ==> {
        &&& drafted_from(inv, before, purchase_date_for(before, now))
        &&& inv.id@.len() == 36
        &&& form_reset(after)
    }
}

/// Handles "Add investment" at the moment `now`: a blank purchase date means
/// `now`, an unreadable one sets `date_error` and adds nothing; a complete
/// form gives the new active investment (with a fresh ID) and is reset to
/// the default form; an incomplete one adds nothing and is left as typed.
pub fn submit_new_investment_at(form: &mut NewInvestmentForm, now: UtcInstant) -> (r: Option<Investment>)
    ensures
        submitted(*old(form), *final(form), r, now),
        trim_spec(old(form).purchase_date@).len() > 0 ==> (r matches Some(inv) ==> inv.purchase_date.wf()
            && inv.purchase_date.in_chrono_range() && inv.purchase_date.secs % 86_400 == 0),
{
    form.date_error = false;
    let price = match parse_u64(trimmed(form.purchase_price.as_str()).as_str()) {
        Some(v) => v,
        None => 0,
    };
    let qty = match parse_u64(trimmed(form.quantity.as_str()).as_str()) {
        Some(v) => v,
        None => 0,
    };
    let item_id = parse_u32(trimmed(form.item_id.as_str()).as_str());
    let date_text = trimmed(form.purchase_date.as_str());
    let purchase_date = if date_text.as_str().unicode_len() == 0 {
        now
    } else {
        match parse_ymd_midnight(date_text.as_str()) {
            Some(d) => d,
            None => {
                form.date_error = true;
                return None;
            },
        }
    };
    let name = trimmed(form.item_name.as_str());
    if name.as_str().unicode_len() > 0 && price > 0 && qty > 0 {
        let inv = Investment {
            id: new_record_id(),
            item_name: name,
            item_id,
            game: form.game,
            purchase_date,
            purchase_price: price,
            quantity: qty,
            notes: optional_trimmed(form.notes.as_str()),
            status: InvestmentStatus::Active,
            current_price: None,
            previous_price: None,
            last_updated: None,
            sold_price: None,
            sold_date: None,
        };
        *form = NewInvestmentForm::default();
        Some(inv)
    } else {
        None
    }
}

/// Handles "Add investment", with a blank purchase date taken as the current
/// time (read from the clock): as `submit_new_investment_at` at that moment,
/// a valid instant after the epoch.
pub fn submit_new_investment(form: &mut NewInvestmentForm) -> (r: Option<Investment>)
    ensures
        exists|now: UtcInstant|
            now.wf() && now.secs >= 0 && now.in_chrono_range() && #[trigger] submitted(
                *old(form),
                *final(form),
                r,
                now,
            ),
        r matches Some(inv) ==> inv.wf() && inv.purchase_date.in_chrono_range(),
{
    let now = utc_now();
    let r = submit_new_investment_at(form, now);
    proof {
        assert(submitted(*old(form), *form, r, now));
    }
    r
}

/// A complete add form gives an active, unpriced, unsold investment whose
/// name is the trimmed typed name, whose price and quantity are the numbers
/// typed in their own fields, whose item ID is the typed one when it reads
/// as a `u32` (none otherwise), of the game chosen, bought at the date given.
pub proof fn law_added_investment_is_what_was_typed(inv: Investment, form: NewInvestmentForm, date: UtcInstant)
    requires
        drafted_from(inv, form, date),
        draft_complete(form),
    ensures
        inv.item_name@ == trim_spec(form.item_name@),
        inv.item_name@.len() > 0,
        parse_u64_spec(trim_spec(form.purchase_price@)) == Some(inv.purchase_price),
        parse_u64_spec(trim_spec(form.quantity@)) == Some(inv.quantity),
        inv.purchase_price > 0 && inv.quantity > 0,
        inv.item_id == parse_u32_spec(trim_spec(form.item_id@)),
        inv.game == form.game,
        inv.purchase_date == date,
        inv.status == InvestmentStatus::Active,
        inv.current_price is None && inv.previous_price is None && inv.last_updated is None,
        inv.sold_price is None && inv.sold_date is None,
{
}

/// The frequency a schedule form builds is of the kind chosen, with the
/// typed interval where it is at least one, else one.
pub proof fn law_frequency_follows_kind(kind: FrequencyKind, every_x: u32)
    ensures
        kind == FrequencyKind::Daily <==> frequency_for_spec(kind, every_x) == Frequency::Daily,
        kind == FrequencyKind::Weekly <==> frequency_for_spec(kind, every_x) == Frequency::Weekly,
        kind == FrequencyKind::EveryOtherWeek <==> frequency_for_spec(kind, every_x)
            == Frequency::EveryOtherWeek,
        kind == FrequencyKind::Monthly <==> frequency_for_spec(kind, every_x) == Frequency::Monthly,
        kind == FrequencyKind::EveryXDays ==> frequency_for_spec(kind, every_x) == Frequency::EveryXDays(
            if every_x >= 1 { every_x } else { 1 },
        ),
        kind == FrequencyKind::EveryXHours ==> frequency_for_spec(kind, every_x) == Frequency::EveryXHours(
            if every_x >= 1 { every_x } else { 1 },
        ),
{
}

/// The error an edit shows: the first of a blank name, a price or quantity
/// that is not a whole number above zero, and an unreadable date.
pub open spec fn edit_error_spec(form: EditInvestmentForm) -> Option<Seq<char>> {
    let price = parse_u64_spec(trim_spec(form.purchase_price@));
    let qty = parse_u64_spec(trim_spec(form.quantity@));
    let date_text = trim_spec(form.purchase_date@);
    if trim_spec(form.item_name@).len() == 0 {
        Some("Item name can't be empty."@)
    } else if price is None || price.unwrap() == 0 {
        Some("Purchase price must be a whole number greater than 0."@)
    } else if qty is None || qty.unwrap() == 0 {
        Some("Quantity must be a whole number greater than 0."@)
    } else if date_text.len() > 0 && ymd_midnight_secs(date_text) is None {
        Some("Couldn't read that date -- use YYYY-MM-DD."@)
    } else {
        None
    }
}

/// An edit is saved exactly when the name is not blank, the price and the
/// quantity read as whole numbers above zero and the date is blank or
/// readable; a blank name is reported before anything else, then the price,
/// the quantity and the date, in that order.
pub proof fn law_edit_accepted_exactly_when_valid(form: EditInvestmentForm)
    ensures
        edit_error_spec(form) is None <==> {
            &&& trim_spec(form.item_name@).len() > 0
            &&& parse_u64_spec(trim_spec(form.purchase_price@)) matches Some(p) && p > 0
            &&& parse_u64_spec(trim_spec(form.quantity@)) matches Some(q) && q > 0
            &&& (trim_spec(form.purchase_date@).len() == 0 || ymd_midnight_secs(
                trim_spec(form.purchase_date@),
            ) is Some)
        },
        trim_spec(form.item_name@).len() == 0 ==> edit_error_spec(form) == Some("Item name can't be empty."@),
{
}

/// Handles "Save" while an investment is edited: on an error the form shows
/// it and the investment is left alone; otherwise the investment takes the
/// form's values (a blank date keeps the purchase date) and the edit is done.
/// Returns whether it was saved.
pub fn save_edit(inv: &mut Investment, form: &mut EditInvestmentForm) -> (saved: bool)
    ensures
        saved == edit_error_spec(*old(form)) is None,
        !saved ==> *final(inv) == *old(inv),
        !saved ==> (final(form).error matches Some(e) && Some(e@) == edit_error_spec(*old(form))),
        saved ==> final(form).error is None,
        saved ==> {
            let date_text = trim_spec(old(form).purchase_date@);
            &&& final(inv).id == old(inv).id
            &&& final(inv).game == old(form).game
            &&& final(inv).item_name@ == trim_spec(old(form).item_name@)
            &&& final(inv).item_id == parse_u32_spec(trim_spec(old(form).item_id@))
            &&& final(inv).purchase_date == (if date_text.len() == 0 {
                old(inv).purchase_date
            } else {
                UtcInstant { secs: ymd_midnight_secs(date_text).unwrap(), nanos: 0 }
            })
            &&& final(inv).purchase_price == number_or_zero(old(form).purchase_price@)
            &&& final(inv).quantity == number_or_zero(old(form).quantity@)
            &&& (match final(inv).notes {
                Some(n) => optional_text(old(form).notes@) == Some(n@),
                None => optional_text(old(form).notes@) is None,
            })
            &&& final(inv).status == old(inv).status
            &&& final(inv).current_price == old(inv).current_price
            &&& final(inv).previous_price == old(inv).previous_price
            &&& final(inv).last_updated == old(inv).last_updated
            &&& final(inv).sold_price == old(inv).sold_price
            &&& final(inv).sold_date == old(inv).sold_date
        },
{
    form.error = None;
    if is_blank(form.item_name.as_str()) {
        proof {
            crate::text::lemma_trim_empty(old(form).item_name@);
        }
        form.error = Some(String::from_str("Item name can't be empty."));
        return false;
    }
    proof {
        crate::text::lemma_trim_empty(old(form).item_name@);
    }
    let price = match parse_u64(trimmed(form.purchase_price.as_str()).as_str()) {
        Some(p) => if p > 0 { p } else { 0 },
        None => 0,
    };
    if price == 0 {
        form.error = Some(String::from_str("Purchase price must be a whole number greater than 0."));
        return false;
    }
    let qty = match parse_u64(trimmed(form.quantity.as_str()).as_str()) {
        Some(q) => if q > 0 { q } else { 0 },
        None => 0,
    };
    if qty == 0 {
        form.error = Some(String::from_str("Quantity must be a whole number greater than 0."));
        return false;
    }
    let date_text = trimmed(form.purchase_date.as_str());
    let purchase_date = if date_text.as_str().unicode_len() == 0 {
        inv.purchase_date
    } else {
        match parse_ymd_midnight(date_text.as_str()) {
            Some(d) => d,
            None => {
                form.error = Some(String::from_str("Couldn't read that date -- use YYYY-MM-DD."));
                return false;
            },
        }
    };
    inv.game = form.game;
    inv.item_name = trimmed(form.item_name.as_str());
    inv.item_id = parse_u32(trimmed(form.item_id.as_str()).as_str());
    inv.purchase_date = purchase_date;
    inv.purchase_price = price;
    inv.quantity = qty;
    inv.notes = optional_trimmed(form.notes.as_str());
    true
}

/// Handles "Mark sold": the investment is sold at its current price (or its
/// purchase price when none is known), at `now`.
pub fn mark_sold(inv: &mut Investment, now: UtcInstant)
    ensures
        *final(inv) == (Investment {
            status: InvestmentStatus::Sold,
            sold_price: Some(match old(inv).current_price {
                Some(p) => p,
                None => old(inv).purchase_price,
            }),
            sold_date: Some(now),
            ..*old(inv)
        }),
{
    inv.status = InvestmentStatus::Sold;
    inv.sold_price = match inv.current_price {
        Some(p) => Some(p),
        None => Some(inv.purchase_price),
    };
    inv.sold_date = Some(now);
}

/// The investments whose ID is not `id`, in order.
pub open spec fn without_id(invs: Seq<Investment>, id: Seq<char>) -> Seq<Investment>
    decreases invs.len(),
{
    if invs.len() == 0 {
        invs
    } else {
        let rest = without_id(invs.drop_last(), id);
        if invs.last().id@ != id {
            rest.push(invs.last())
        } else {
            rest
        }
    }
}

/// Handles "Delete": removes every investment with the given ID, keeping the
/// others in order.
pub fn remove_investment(investments: &mut Vec<Investment>, id: &str)
    ensures
        final(investments)@ == without_id(old(investments)@, id@),
{
    let ghost orig = investments@;
    let target = String::from_str(id);
    let n = investments.len();
    let mut kept: Vec<Investment> = Vec::new();
    let mut i: usize = 0;
    while i < n
        invariant
            n == orig.len(),
            i <= n,
            target@ == id@,
            investments@ == orig.subrange(i as int, n as int),
            kept@ == without_id(orig.take(i as int), id@),
        decreases n - i,
    {
        let x = investments.remove(0);
        proof {
            assert(x == orig[i as int]);
            assert(orig.take(i + 1).drop_last() =~= orig.take(i as int));
            assert(orig.take(i + 1).last() == orig[i as int]);
            assert(investments@ =~= orig.subrange(i + 1, n as int));
        }
        if !(x.id == target) {
            kept.push(x);
        }
        i = i + 1;
    }
    assert(orig.take(n as int) =~= orig);
    *investments = kept;
}

/// The schedules whose ID is not `id`, in order.
pub open spec fn schedules_without_id(s: Seq<TimeSchedule>, id: Seq<char>) -> Seq<TimeSchedule>
    decreases s.len(),
{
    if s.len() == 0 {
        s
    } else {
        let rest = schedules_without_id(s.drop_last(), id);
        if s.last().id@ != id { rest.push(s.last()) } else { rest }
    }
}

/// Removes every summary schedule with the given ID, keeping the others in
/// order.
pub fn remove_schedule(schedules: &mut Vec<TimeSchedule>, id: &str)
    ensures
        final(schedules)@ == schedules_without_id(old(schedules)@, id@),
{
    let ghost orig = schedules@;
    let target = String::from_str(id);
    let n = schedules.len();
    let mut kept: Vec<TimeSchedule> = Vec::new();
    let mut i: usize = 0;
    while i < n
        invariant
            n == orig.len(),
            i <= n,
            target@ == id@,
            schedules@ == orig.subrange(i as int, n as int),
            kept@ == schedules_without_id(orig.take(i as int), id@),
        decreases n - i,
    {
        let x = schedules.remove(0);
        proof {
            assert(x == orig[i as int]);
            assert(orig.take(i + 1).drop_last() =~= orig.take(i as int));
            assert(orig.take(i + 1).last() == orig[i as int]);
            assert(schedules@ =~= orig.subrange(i + 1, n as int));
        }
        if !(x.id == target) {
            kept.push(x);
        }
        i = i + 1;
    }
    assert(orig.take(n as int) =~= orig);
    *schedules = kept;
}

/// The alert rules whose ID is not `id`, in order.
pub open spec fn rules_without_id(s: Seq<EventRule>, id: Seq<char>) -> Seq<EventRule>
    decreases s.len(),
{
    if s.len() == 0 {
        s
    } else {
        let rest = rules_without_id(s.drop_last(), id);
        if s.last().id@ != id { rest.push(s.last()) } else { rest }
    }
}

/// Removes every alert rule with the given ID, keeping the others in order.
pub fn remove_event_rule(rules: &mut Vec<EventRule>, id: &str)
    ensures
        final(rules)@ == rules_without_id(old(rules)@, id@),
{
    let ghost orig = rules@;
    let target = String::from_str(id);
    let n = rules.len();
    let mut kept: Vec<EventRule> = Vec::new();
    let mut i: usize = 0;
    while i < n
        invariant
            n == orig.len(),
            i <= n,
            target@ == id@,
            rules@ == orig.subrange(i as int, n as int),
            kept@ == rules_without_id(orig.take(i as int), id@),
        decreases n - i,
    {
        let x = rules.remove(0);
        proof {
            assert(x == orig[i as int]);
            assert(orig.take(i + 1).drop_last() =~= orig.take(i as int));
            assert(orig.take(i + 1).last() == orig[i as int]);
            assert(rules@ =~= orig.subrange(i + 1, n as int));
        }
        if !(x.id == target) {
            kept.push(x);
        }
        i = i + 1;
    }
    assert(orig.take(n as int) =~= orig);
    *rules = kept;
}

/// The schedule the add form describes: named after its frequency (e.g.
/// "Every 3 days") when the name is blank, at the chosen time (midnight when
/// it is not a valid time), enabled and never run.
pub fn schedule_from_form(form: &NewScheduleForm) -> (r: TimeSchedule)
    ensures
        r.name@ == (if trim_spec(form.name@).len() == 0 {
            frequency_label_spec(frequency_for_spec(form.kind, form.every_x))
        } else {
            trim_spec(form.name@)
        }),
        r.frequency == frequency_for_spec(form.kind, form.every_x),
        r.time_of_day == (if form.hour < 24 && form.minute < 60 {
            TimeOfDay { secs: (form.hour * 3600 + form.minute * 60) as u32, frac: 0 }
        } else {
            TimeOfDay { secs: 0, frac: 0 }
        }),
        r.day_of_week == form.day_of_week,
        r.enabled,
        r.last_run is None,
{
    proof {
        crate::text::lemma_trim_empty(form.name@);
    }
    let frequency = frequency_for(form.kind, form.every_x);
    let name = if is_blank(form.name.as_str()) {
        frequency_label(frequency)
    } else {
        trimmed(form.name.as_str())
    };
    let time_of_day = match TimeOfDay::from_hm(form.hour, form.minute) {
        Some(t) => t,
        None => TimeOfDay::midnight(),
    };
    TimeSchedule {
        id: new_record_id(),
        name,
        frequency,
        time_of_day,
        day_of_week: form.day_of_week,
        enabled: true,
        last_run: None,
    }
}

/// The alert condition the add form describes, from its threshold text. The
/// percentage choices take `percent`, the threshold text as read into a
/// percentage (its trimmed text parsed as a binary64 number) where it reads
/// as one.
pub open spec fn event_kind_spec(kind: EventKindChoice, text: Seq<char>, percent: Option<PercentThreshold>) -> Result<EventKind, Seq<char>> {
    let t = trim_spec(text);
    match kind {
        EventKindChoice::PriceAbove => match parse_u64_spec(t) {
            Some(v) => Ok(EventKind::PriceAbove(v)),
            None => Err("Enter a whole number of gp."@),
        },
        EventKindChoice::PriceBelow => match parse_u64_spec(t) {
            Some(v) => Ok(EventKind::PriceBelow(v)),
            None => Err("Enter a whole number of gp."@),
        },
        EventKindChoice::ValueAbove => match parse_u64_spec(t) {
            Some(v) => Ok(EventKind::ValueAbove(v)),
            None => Err("Enter a whole number of gp."@),
        },
        EventKindChoice::ValueBelow => match parse_u64_spec(t) {
            Some(v) => Ok(EventKind::ValueBelow(v)),
            None => Err("Enter a whole number of gp."@),
        },
        EventKindChoice::ProfitAboveGp => match parse_i64_spec(t) {
            Some(v) => Ok(EventKind::ProfitAboveGp(v)),
            None => Err("Enter a whole number of gp (can be negative)."@),
        },
        EventKindChoice::ProfitAbovePercent => match percent {
            Some(p) => Ok(EventKind::ProfitAbovePercent(p)),
            None => Err("Enter a percentage, e.g. 15 or 15.5."@),
        },
        EventKindChoice::SignificantMove => match percent {
            Some(p) => Ok(EventKind::SignificantMove(p)),
            None => Err("Enter a percentage, e.g. 10 or 10.5."@),
        },
    }
}

/// The form choice an alert condition belongs to.
pub open spec fn choice_of(k: EventKind) -> EventKindChoice {
    match k {
        EventKind::PriceAbove(_) => EventKindChoice::PriceAbove,
        EventKind::PriceBelow(_) => EventKindChoice::PriceBelow,
        EventKind::ValueAbove(_) => EventKindChoice::ValueAbove,
        EventKind::ValueBelow(_) => EventKindChoice::ValueBelow,
        EventKind::ProfitAboveGp(_) => EventKindChoice::ProfitAboveGp,
        EventKind::ProfitAbovePercent(_) => EventKindChoice::ProfitAbovePercent,
        EventKind::SignificantMove(_) => EventKindChoice::SignificantMove,
    }
}

/// The whole-gp threshold an alert condition carries, as an integer.
pub open spec fn gp_threshold(k: EventKind) -> Option<int> {
    match k {
        EventKind::PriceAbove(v) => Some(v as int),
        EventKind::PriceBelow(v) => Some(v as int),
        EventKind::ValueAbove(v) => Some(v as int),
        EventKind::ValueBelow(v) => Some(v as int),
        EventKind::ProfitAboveGp(v) => Some(v as int),
        _ => None,
    }
}

/// The condition the add form builds is always of the kind chosen in the
/// form; a gp condition carries the number its threshold text reads as, and
/// is built exactly when the text reads as such a number (a whole `u64`, or
/// an `i64` for the profit rule); a percentage condition carries the
/// percentage given, and is built exactly when one is.
pub proof fn law_event_kind_follows_choice(
    choice: EventKindChoice,
    text: Seq<char>,
    percent: Option<PercentThreshold>,
)
    ensures
        event_kind_spec(choice, text, percent) matches Ok(k) ==> choice_of(k) == choice,
        choice == EventKindChoice::PriceAbove || choice == EventKindChoice::PriceBelow || choice
            == EventKindChoice::ValueAbove || choice == EventKindChoice::ValueBelow ==> match parse_u64_spec(
            trim_spec(text),
        ) {
            Some(v) => event_kind_spec(choice, text, percent) matches Ok(k) && gp_threshold(k) == Some(
                v as int,
            ),
            None => event_kind_spec(choice, text, percent) is Err,
        },
        choice == EventKindChoice::ProfitAboveGp ==> match parse_i64_spec(trim_spec(text)) {
            Some(v) => event_kind_spec(choice, text, percent) == Ok::<EventKind, Seq<char>>(
                EventKind::ProfitAboveGp(v),
            ),
            None => event_kind_spec(choice, text, percent) is Err,
        },
        choice == EventKindChoice::ProfitAbovePercent || choice == EventKindChoice::SignificantMove ==> (
        event_kind_spec(choice, text, percent) is Ok <==> percent is Some),
        choice == EventKindChoice::ProfitAbovePercent ==> (percent matches Some(p) ==> event_kind_spec(
            choice,
            text,
            percent,
        ) == Ok::<EventKind, Seq<char>>(EventKind::ProfitAbovePercent(p))),
        choice == EventKindChoice::SignificantMove ==> (percent matches Some(p) ==> event_kind_spec(
            choice,
            text,
            percent,
        ) == Ok::<EventKind, Seq<char>>(EventKind::SignificantMove(p))),
{
}

/// Builds the alert condition of the add form, or the message to show.
pub fn build_event_kind(kind: EventKindChoice, threshold_text: &str, percent: Option<PercentThreshold>) -> (r: Result<EventKind, String>)
    ensures
        r matches Ok(k) ==> event_kind_spec(kind, threshold_text@, percent) == Ok::<EventKind, Seq<char>>(k),
        r matches Err(m) ==> event_kind_spec(kind, threshold_text@, percent) == Err::<EventKind, Seq<char>>(m@),
{
    let t = trimmed(threshold_text);
    let text = t.as_str();
    match kind {
        EventKindChoice::PriceAbove => match parse_u64(text) {
            Some(v) => Ok(EventKind::PriceAbove(v)),
            None => Err(String::from_str("Enter a whole number of gp.")),
        },
        EventKindChoice::PriceBelow => match parse_u64(text) {
            Some(v) => Ok(EventKind::PriceBelow(v)),
            None => Err(String::from_str("Enter a whole number of gp.")),
        },
        EventKindChoice::ValueAbove => match parse_u64(text) {
            Some(v) => Ok(EventKind::ValueAbove(v)),
            None => Err(String::from_str("Enter a whole number of gp.")),
        },
        EventKindChoice::ValueBelow => match parse_u64(text) {
            Some(v) => Ok(EventKind::ValueBelow(v)),
            None => Err(String::from_str("Enter a whole number of gp.")),
        },
        EventKindChoice::ProfitAboveGp => match parse_i64(text) {
            Some(v) => Ok(EventKind::ProfitAboveGp(v)),
            None => Err(String::from_str("Enter a whole number of gp (can be negative).")),
        },
        EventKindChoice::ProfitAbovePercent => match percent {
            Some(p) => Ok(EventKind::ProfitAbovePercent(p)),
            None => Err(String::from_str("Enter a percentage, e.g. 15 or 15.5.")),
        },
        EventKindChoice::SignificantMove => match percent {
            Some(p) => Ok(EventKind::SignificantMove(p)),
            None => Err(String::from_str("Enter a percentage, e.g. 10 or 10.5.")),
        },
    }
}

/// The rule the add form describes, with condition `kind`: named by
/// `description` (the condition as described to the user) when the name is
/// blank, enabled and never triggered.
pub fn rule_from_form(form: &NewEventRuleForm, kind: EventKind, description: String) -> (r: EventRule)
    ensures
        r.name@ == (if trim_spec(form.name@).len() == 0 { description@ } else { trim_spec(form.name@) }),
        r.item_id == form.target_investment_id,
        r.kind == kind,
        r.enabled,
        r.last_triggered is None,
{
    proof {
        crate::text::lemma_trim_empty(form.name@);
    }
    let name = if is_blank(form.name.as_str()) { description } else { trimmed(form.name.as_str()) };
    let item_id = match &form.target_investment_id {
        Some(t) => Some(t.clone()),
        None => None,
    };
    EventRule { id: new_record_id(), name, item_id, kind, enabled: true, last_triggered: None }
}

/// The position of the first investment with ID `id`.
pub open spec fn first_with_id(invs: Seq<Investment>, id: Seq<char>) -> Option<int>
    decreases invs.len(),
{
    if invs.len() == 0 {
        None
    } else if invs[0].id@ == id {
        Some(0)
    } else {
        match first_with_id(invs.drop_first(), id) {
            Some(i) => Some(i + 1),
            None => None,
        }
    }
}

proof fn lemma_first_with_id(invs: Seq<Investment>, id: Seq<char>, i: int)
    requires
        0 <= i <= invs.len(),
        forall|j: int| 0 <= j < i ==> (#[trigger] invs[j]).id@ != id,
    ensures
        i < invs.len() && invs[i].id@ == id ==> first_with_id(invs, id) == Some(i),
        i == invs.len() ==> first_with_id(invs, id) is None,
    decreases i,
{
    if i > 0 {
        assert forall|j: int| 0 <= j < i - 1 implies (#[trigger] invs.drop_first()[j]).id@ != id by {
            assert(invs.drop_first()[j] == invs[j + 1]);
        }
        lemma_first_with_id(invs.drop_first(), id, i - 1);
    }
}

/// The name of the first investment with ID `id`.
pub fn name_of_investment(investments: &Vec<Investment>, id: &String) -> (r: Option<String>)
    ensures
        r matches Some(nm) ==> (first_with_id(investments@, id@) matches Some(i) && nm@
            == investments@[i].item_name@),
        r is None ==> first_with_id(investments@, id@) is None,
{
    let n = investments.len();
    let mut i: usize = 0;
    while i < n
        invariant
            n == investments@.len(),
            i <= n,
            forall|j: int| 0 <= j < i ==> (#[trigger] investments@[j]).id@ != id@,
        decreases n - i,
    {
        if investments[i].id == *id {
            proof {
                lemma_first_with_id(investments@, id@, i as int);
            }
            return Some(investments[i].item_name.clone());
        }
        i = i + 1;
    }
    proof {
        lemma_first_with_id(investments@, id@, n as int);
    }
    None
}

/// What a rule targets, as listed: "all active investments", the name of the
/// targeted investment, or "(deleted investment)".
pub fn rule_target_label(target: &Option<String>, investments: &Vec<Investment>) -> (r: String)
    ensures
        target is None ==> r@ == "all active investments"@,
        target matches Some(id) ==> match first_with_id(investments@, id@) {
            Some(i) => r@ == investments@[i].item_name@,
            None => r@ == "(deleted investment)"@,
        },
{
    match target {
        None => String::from_str("all active investments"),
        Some(id) => match name_of_investment(investments, id) {
            Some(nm) => nm,
            None => String::from_str("(deleted investment)"),
        },
    }
}

/// What the add form's target shows: "All active investments" unless it
/// names an investment that still exists.
pub fn form_target_label(target: &Option<String>, investments: &Vec<Investment>) -> (r: String)
    ensures
        target is None ==> r@ == "All active investments"@,
        target matches Some(id) ==> match first_with_id(investments@, id@) {
            Some(i) => r@ == investments@[i].item_name@,
            None => r@ == "All active investments"@,
        },
{
    match target {
        None => String::from_str("All active investments"),
        Some(id) => match name_of_investment(investments, id) {
            Some(nm) => nm,
            None => String::from_str("All active investments"),
        },
    }
}

} // verus!
