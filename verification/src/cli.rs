use vstd::prelude::*;

verus! {

/// What can be done with customers.
#[derive(Debug, Clone, Copy, PartialEq, Eq, Structural)]
pub enum CustomerCommand {
    /// Add a customer
    Add,
    /// Edit a customer
    Edit,
    /// List all customers
    List,
    /// Remove a customer
    Remove,
    /// Show a customer
    Show,
}

/// What can be done with invoices.
#[derive(Debug, Clone, Copy, PartialEq, Eq, Structural)]
pub enum InvoiceCommand {
    /// Add an invoice
    Add,
    /// Edit an invoice
    Edit,
    /// List all invoices
    List,
    /// Remove an invoice
    Remove,
    /// Show an invoice
    Show,
    /// Render an invoice to pdf
    Render,
}

/// What can be done with the business.
#[derive(Debug, Clone, Copy, PartialEq, Eq, Structural)]
pub enum BusinessCommand {
    /// Edit business
    Edit,
    /// Show business
    Show,
}

/// What can be done with the configuration.
#[derive(Debug, Clone, Copy, PartialEq, Eq, Structural)]
pub enum ConfigCommand {
    /// Edit configuration
    Edit,
    /// Show configuration
    Show,
}

/// The commands of the program.
#[derive(Debug, Clone, Copy, PartialEq, Eq, Structural)]
pub enum Commands {
    /// Make the store ready for use
    Init,
    /// Manipulate customers
    Customer(CustomerCommand),
    /// Manipulate invoices
    Invoice(InvoiceCommand),
    /// Manipulate own business
    Business(BusinessCommand),
    /// Manipulate configuration
    Config(ConfigCommand),
}

/// One call of the program.
#[derive(Debug, Clone, Copy, PartialEq, Eq, Structural)]
pub struct Cli {
    pub command: Commands,
}

/// The kind of record that the user picks before a command can run.
#[derive(Debug, Clone, Copy, PartialEq, Eq, Structural)]
pub enum Selection {
    /// The command runs as it is.
    Nothing,
    /// The user picks one of the customers.
    Customer,
    /// The user picks one of the invoices.
    Invoice,
}

impl Commands {
    /// What the user picks before the command can run: the customer or the
    /// invoice to edit, remove, show or render, and for a new invoice the
    /// customer that it goes to.
    pub open spec fn asks_for(self) -> Selection {
        match self {
            Commands::Customer(CustomerCommand::Edit) => Selection::Customer,
            Commands::Customer(CustomerCommand::Remove) => Selection::Customer,
            Commands::Customer(CustomerCommand::Show) => Selection::Customer,
            Commands::Invoice(InvoiceCommand::Add) => Selection::Customer,
            Commands::Invoice(InvoiceCommand::Edit) => Selection::Invoice,
            Commands::Invoice(InvoiceCommand::Remove) => Selection::Invoice,
            Commands::Invoice(InvoiceCommand::Show) => Selection::Invoice,
            Commands::Invoice(InvoiceCommand::Render) => Selection::Invoice,
            _ => Selection::Nothing,
        }
    }

    /// Whether the command is only run once the user has agreed to it: the
    /// removal of a customer, which removes all its invoices too.
    pub open spec fn asks_to_confirm(self) -> bool {
        self == Commands::Customer(CustomerCommand::Remove)
    }

    /// Whether the command goes on once the user was asked what it asks of
    /// them: where it asks for a record, `offered` of them were there to pick
    /// from, and where it asks to confirm, `confirmed` is the answer. It goes
    /// on unless there was nothing to pick from or the user said no.
    pub open spec fn goes_on(self, offered: usize, confirmed: bool) -> bool {
        &&& self.asks_for() == Selection::Nothing || offered > 0
        &&& !self.asks_to_confirm() || confirmed
    }

    /// What the user picks before the command can run.
    pub fn selection(&self) -> (kind: Selection)
        ensures
            kind == self.asks_for(),
    {
        match self {
            Commands::Customer(command) => match command {
                CustomerCommand::Edit | CustomerCommand::Remove | CustomerCommand::Show => {
                    Selection::Customer
                },
                CustomerCommand::Add | CustomerCommand::List => Selection::Nothing,
            },
            Commands::Invoice(command) => match command {
                InvoiceCommand::Add => Selection::Customer,
                InvoiceCommand::List => Selection::Nothing,
                InvoiceCommand::Edit
                | InvoiceCommand::Remove
                | InvoiceCommand::Show
                | InvoiceCommand::Render => Selection::Invoice,
            },
            Commands::Init | Commands::Business(_) | Commands::Config(_) => Selection::Nothing,
        }
    }

    /// Whether the command goes on: `offered` records were there to pick from
    /// and `confirmed` is the user's answer, each where the command asks for
    /// one.
    pub fn proceeds(&self, offered: usize, confirmed: bool) -> (go: bool)
        ensures
            go == self.goes_on(offered, confirmed),
    {
        let picked = match self.selection() {
            Selection::Nothing => true,
            _ => offered > 0,
        };
        picked && (!self.needs_confirmation() || confirmed)
    }

    /// Whether the command is only run once the user has agreed to it.
    pub fn needs_confirmation(&self) -> (needed: bool)
        ensures
            needed == self.asks_to_confirm(),
    {
        match self {
            Commands::Customer(CustomerCommand::Remove) => true,
            _ => false,
        }
    }
}

} // verus!
