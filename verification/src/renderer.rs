use crate::date::{date_after, Date};
use crate::document::views;
use crate::models::{
    Address, AddressView, Business, BusinessView, Customer, CustomerView, Invoice, InvoiceView,
    Item, ItemView, Rate,
};
use crate::text::{spaced, spaced_text};
use vstd::prelude::*;

verus! {

/// The number of days after its issuing at which an invoice is due.
pub const DUE_AFTER_DAYS: u64 = 15;

/// A postal address as the invoice template takes it.
#[derive(Debug, Clone, PartialEq, Eq)]
pub struct TemplateAddress {
    pub country: String,
    pub city: String,
    pub postal_code: String,
    pub street: String,
    pub number: String,
}

/// The mathematical value of a [`TemplateAddress`].
pub struct TemplateAddressView {
    pub country: Seq<char>,
    pub city: Seq<char>,
    pub postal_code: Seq<char>,
    pub street: Seq<char>,
    pub number: Seq<char>,
}

impl View for TemplateAddress {
    type V = TemplateAddressView;

    open spec fn view(&self) -> TemplateAddressView {
        TemplateAddressView {
            country: self.country@,
            city: self.city@,
            postal_code: self.postal_code@,
            street: self.street@,
            number: self.number@,
        }
    }
}

/// The issuer of an invoice as the invoice template takes it.
#[derive(Debug, Clone, PartialEq, Eq)]
pub struct TemplateBiller {
    pub name: String,
    pub website: String,
    pub job: String,
    pub vat_id: String,
    pub umsatzsteuer_identifikationsnummer: String,
    pub iban: String,
    pub small_business: bool,
    pub paypalme: String,
    pub address: TemplateAddress,
}

/// The mathematical value of a [`TemplateBiller`].
pub struct TemplateBillerView {
    pub name: Seq<char>,
    pub website: Seq<char>,
    pub job: Seq<char>,
    pub vat_id: Seq<char>,
    pub umsatzsteuer_identifikationsnummer: Seq<char>,
    pub iban: Seq<char>,
    pub small_business: bool,
    pub paypalme: Seq<char>,
    pub address: TemplateAddressView,
}

impl View for TemplateBiller {
    type V = TemplateBillerView;

    open spec fn view(&self) -> TemplateBillerView {
        TemplateBillerView {
            name: self.name@,
            website: self.website@,
            job: self.job@,
            vat_id: self.vat_id@,
            umsatzsteuer_identifikationsnummer: self.umsatzsteuer_identifikationsnummer@,
            iban: self.iban@,
            small_business: self.small_business,
            paypalme: self.paypalme@,
            address: self.address@,
        }
    }
}

/// The receiver of an invoice as the invoice template takes it.
#[derive(Debug, Clone, PartialEq, Eq)]
pub struct TemplateRecipient {
    pub name: String,
    pub organization: String,
    pub vat_id: String,
    pub address: TemplateAddress,
}

/// The mathematical value of a [`TemplateRecipient`].
pub struct TemplateRecipientView {
    pub name: Seq<char>,
    pub organization: Seq<char>,
    pub vat_id: Seq<char>,
    pub address: TemplateAddressView,
}

impl View for TemplateRecipient {
    type V = TemplateRecipientView;

    open spec fn view(&self) -> TemplateRecipientView {
        TemplateRecipientView {
            name: self.name@,
            organization: self.organization@,
            vat_id: self.vat_id@,
            address: self.address@,
        }
    }
}

/// One position of an invoice as the invoice template takes it.
#[derive(Debug, Clone, PartialEq, Eq)]
pub struct TemplateItem {
    pub date: String,
    pub description: String,
    pub price: u32,
    pub quantity: Option<u32>,
    pub dur_min: Option<u32>,
}

/// The mathematical value of a [`TemplateItem`].
pub struct TemplateItemView {
    pub date: Seq<char>,
    pub description: Seq<char>,
    pub price: u32,
    pub quantity: Option<u32>,
    pub dur_min: Option<u32>,
}

impl View for TemplateItem {
    type V = TemplateItemView;

    open spec fn view(&self) -> TemplateItemView {
        TemplateItemView {
            date: self.date@,
            description: self.description@,
            price: self.price,
            quantity: self.quantity,
            dur_min: self.dur_min,
        }
    }
}

/// A discount on an invoice as the invoice template takes it.
#[derive(Debug, Clone, PartialEq, Eq)]
pub struct TemplateDiscount {
    pub value: u64,
    pub kind: String,
    pub reason: String,
}

/// The mathematical value of a [`TemplateDiscount`].
pub struct TemplateDiscountView {
    pub value: u64,
    pub kind: Seq<char>,
    pub reason: Seq<char>,
}

impl View for TemplateDiscount {
    type V = TemplateDiscountView;

    open spec fn view(&self) -> TemplateDiscountView {
        TemplateDiscountView {
            value: self.value,
            kind: self.kind@,
            reason: self.reason@,
        }
    }
}

/// All that the invoice template needs to typeset one invoice.
#[derive(Debug, Clone, PartialEq, Eq)]
pub struct TemplateInvoice {
    pub invoice_id: String,
    pub delivery_date: String,
    pub issuing_date: String,
    pub due_date: String,
    pub language: String,
    pub discount: Option<TemplateDiscount>,
    pub vat: Rate,
    pub hourly_rate: u32,
    pub biller: TemplateBiller,
    pub recipient: TemplateRecipient,
    pub items: Vec<TemplateItem>,
}

/// The mathematical value of a [`TemplateInvoice`].
pub struct TemplateInvoiceView {
    pub invoice_id: Seq<char>,
    pub delivery_date: Seq<char>,
    pub issuing_date: Seq<char>,
    pub due_date: Seq<char>,
    pub language: Seq<char>,
    pub discount: Option<TemplateDiscountView>,
    pub vat: Rate,
    pub hourly_rate: u32,
    pub biller: TemplateBillerView,
    pub recipient: TemplateRecipientView,
    pub items: Seq<TemplateItemView>,
}

impl View for TemplateInvoice {
    type V = TemplateInvoiceView;

    open spec fn view(&self) -> TemplateInvoiceView {
        TemplateInvoiceView {
            invoice_id: self.invoice_id@,
            delivery_date: self.delivery_date@,
            issuing_date: self.issuing_date@,
            due_date: self.due_date@,
            language: self.language@,
            discount: match self.discount {
                Some(inner) => Some(inner@),
                None => None,
            },
            vat: self.vat,
            hourly_rate: self.hourly_rate,
            biller: self.biller@,
            recipient: self.recipient@,
            items: views(self.items@),
        }
    }
}

impl TemplateAddressView {
    /// The address, field by field.
    pub open spec fn of(address: AddressView) -> TemplateAddressView {
        TemplateAddressView {
            country: address.country,
            city: address.city,
            postal_code: address.postal_code,
            street: address.street,
            number: address.number,
        }
    }
}

impl TemplateAddress {
    /// The address, field by field.
    pub fn from_address(address: Address) -> (template: TemplateAddress)
        ensures
            template@ == TemplateAddressView::of(address@),
    {
        TemplateAddress {
            country: address.country,
            city: address.city,
            postal_code: address.postal_code,
            street: address.street,
            number: address.number,
        }
    }
}

impl TemplateBillerView {
    /// The business as the issuer: named by its contact, with the name of
    /// the business as the job, and with its address, IBAN and VAT id.
    /// Nothing else is filled in.
    pub open spec fn of(business: BusinessView) -> TemplateBillerView {
        TemplateBillerView {
            name: spaced(business.contact.name, business.contact.surname),
            website: Seq::empty(),
            job: business.name,
            vat_id: business.vat_id,
            umsatzsteuer_identifikationsnummer: Seq::empty(),
            iban: business.payment.iban,
            small_business: false,
            paypalme: Seq::empty(),
            address: TemplateAddressView::of(business.address),
        }
    }
}

impl TemplateBiller {
    /// The business as the issuer of an invoice.
    pub fn from_business(business: Business) -> (template: TemplateBiller)
        ensures
            template@ == TemplateBillerView::of(business@),
    {
        TemplateBiller {
            name: spaced_text(&business.contact.name, &business.contact.surname),
            website: String::new(),
            job: business.name,
            vat_id: business.vat_id,
            umsatzsteuer_identifikationsnummer: String::new(),
            iban: business.payment.iban,
            small_business: false,
            paypalme: String::new(),
            address: TemplateAddress::from_address(business.address),
        }
    }
}

impl TemplateRecipientView {
    /// The customer as the receiver: named by its contact, with its
    /// organization, address and VAT id.
    pub open spec fn of(customer: CustomerView) -> TemplateRecipientView {
        TemplateRecipientView {
            name: spaced(customer.contact.name, customer.contact.surname),
            organization: customer.organization,
            vat_id: customer.vat_id,
            address: TemplateAddressView::of(customer.address),
        }
    }
}

impl TemplateRecipient {
    /// The customer as the receiver of an invoice.
    pub fn from_customer(customer: Customer) -> (template: TemplateRecipient)
        ensures
            template@ == TemplateRecipientView::of(customer@),
    {
        TemplateRecipient {
            name: spaced_text(&customer.contact.name, &customer.contact.surname),
            organization: customer.organization,
            vat_id: customer.vat_id,
            address: TemplateAddress::from_address(customer.address),
        }
    }
}

impl TemplateItemView {
    /// The item with its description, price and quantity; no date and no
    /// duration are filled in.
    pub open spec fn of(item: ItemView) -> TemplateItemView {
        TemplateItemView {
            date: Seq::empty(),
            description: item.description,
            price: item.price,
            quantity: item.quantity,
            dur_min: None,
        }
    }
}

impl TemplateItem {
    /// The item as a position of the invoice.
    pub fn from_item(item: &Item) -> (template: TemplateItem)
        ensures
            template@ == TemplateItemView::of(item@),
    {
        TemplateItem {
            date: String::new(),
            description: item.description.clone(),
            price: item.price,
            quantity: item.quantity,
            dur_min: None,
        }
    }
}

impl TemplateInvoiceView {
    /// The data of an invoice that is due on `due`: the identifier and the
    /// dates of the invoice, the language `de`, the VAT rate of the business,
    /// the business as issuer, the customer as receiver, and the items in
    /// their order. No discount and no hourly rate are filled in.
    pub open spec fn of(
        business: BusinessView,
        customer: CustomerView,
        invoice: InvoiceView,
        due: Date,
    ) -> TemplateInvoiceView {
        TemplateInvoiceView {
            invoice_id: invoice.id,
            delivery_date: invoice.delivery_date.text(),
            issuing_date: invoice.issuing_date.text(),
            due_date: due.text(),
            language: "de"@,
            discount: None,
            vat: business.vat,
            hourly_rate: 0,
            biller: TemplateBillerView::of(business),
            recipient: TemplateRecipientView::of(customer),
            items: Seq::new(invoice.items.len(), |i: int| TemplateItemView::of(invoice.items[i])),
        }
    }
}

impl TemplateInvoice {
    /// The data of an invoice that is due on `due`.
    pub fn with_due_date(
        business: Business,
        customer: Customer,
        invoice: Invoice,
        due: Date,
    ) -> (template: TemplateInvoice)
        ensures
            template@ == TemplateInvoiceView::of(business@, customer@, invoice@, due),
    {
        let mut items: Vec<TemplateItem> = Vec::new();
        let mut i: usize = 0;
        while i < invoice.items.len()
            invariant
                i <= invoice.items.len(),
                items.len() == i,
                forall|j: int| 0 <= j < i ==> items[j]@ == TemplateItemView::of(invoice.items[j]@),
            decreases invoice.items.len() - i,
        {
            items.push(TemplateItem::from_item(&invoice.items[i]));
            i += 1;
        }
        let template = TemplateInvoice {
            invoice_id: invoice.id,
            delivery_date: invoice.delivery_date.to_text(),
            issuing_date: invoice.issuing_date.to_text(),
            due_date: due.to_text(),
            language: "de".to_owned(),
            discount: None,
            vat: business.vat,
            hourly_rate: 0,
            biller: TemplateBiller::from_business(business),
            recipient: TemplateRecipient::from_customer(customer),
            items,
        };
        assert(template@.items =~= TemplateInvoiceView::of(
            business@,
            customer@,
            invoice@,
            due,
        ).items);
        template
    }

    /// The data of an invoice, which is due 15 days after it was issued;
    /// `None` where the calendar has no such day.
    pub fn new(business: Business, customer: Customer, invoice: Invoice) -> (template: Option<
        TemplateInvoice,
    >)
        ensures
            match date_after(invoice@.issuing_date, DUE_AFTER_DAYS) {
                Some(due) => template matches Some(data) && data@ == TemplateInvoiceView::of(
                    business@,
                    customer@,
                    invoice@,
                    due,
                ),
                None => template is None,
            },
    {
        match invoice.issuing_date.plus_days(DUE_AFTER_DAYS) {
            Some(due) => Some(TemplateInvoice::with_due_date(business, customer, invoice, due)),
            None => None,
        }
    }
}

} // verus!
