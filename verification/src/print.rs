//! How a page is printed.

use crate::command::{no_commands, tell, Command, CommandView, Margin};
use crate::geometry::Single;
use vstd::prelude::*;

verus! {

/// The margins of a printed page.
#[derive(Debug, Clone, Copy, PartialEq, Eq, Structural)]
pub struct PrintMargin {
    pub top: Single,
    pub right: Single,
    pub bottom: Single,
    pub left: Single,
}

/// How a page is printed.
#[derive(Debug, Clone, Copy, PartialEq, Eq, Structural)]
pub struct PrintOptions {
    pub margins: PrintMargin,
}

/// The number zero.
pub open spec fn zero() -> Single {
    Single { bits: 0 }
}

/// No margins at all.
pub open spec fn no_margins() -> PrintMargin {
    PrintMargin { top: zero(), right: zero(), bottom: zero(), left: zero() }
}

impl Default for PrintMargin {
    fn default() -> (r: Self)
        ensures
            r == no_margins(),
    {
        let zero = Single { bits: 0 };
        PrintMargin { top: zero, right: zero, bottom: zero, left: zero }
    }
}

impl Default for PrintOptions {
    fn default() -> (r: Self)
        ensures
            r == (PrintOptions { margins: no_margins() }),
    {
        PrintOptions { margins: PrintMargin::default() }
    }
}

/// What prints a page: the four margins are set, and the operation is made, allowed to leave the
/// current thread, and run.
pub open spec fn printing(options: PrintOptions) -> Seq<CommandView> {
    seq![
        CommandView::SetPrintMargin { side: Margin::Top, size: options.margins.top },
        CommandView::SetPrintMargin { side: Margin::Right, size: options.margins.right },
        CommandView::SetPrintMargin { side: Margin::Bottom, size: options.margins.bottom },
        CommandView::SetPrintMargin { side: Margin::Left, size: options.margins.left },
        CommandView::CreatePrintOperation,
        CommandView::SetPrintSpawnsThread(true),
        CommandView::RunPrintOperation,
    ]
}

/// The commands that print a page.
pub fn print_commands(options: &PrintOptions) -> (r: Vec<Command>)
    ensures
        crate::command::views(r@) == printing(*options),
{
    let mut r = no_commands();
    tell(&mut r, Command::SetPrintMargin { side: Margin::Top, size: options.margins.top });
    tell(&mut r, Command::SetPrintMargin { side: Margin::Right, size: options.margins.right });
    tell(&mut r, Command::SetPrintMargin { side: Margin::Bottom, size: options.margins.bottom });
    tell(&mut r, Command::SetPrintMargin { side: Margin::Left, size: options.margins.left });
    tell(&mut r, Command::CreatePrintOperation);
    tell(&mut r, Command::SetPrintSpawnsThread(true));
    tell(&mut r, Command::RunPrintOperation);
    assert(crate::command::views(r@) =~= printing(*options));
    r
}

} // verus!
