use vstd::prelude::*;

use crate::widget::service_switcher::ServiceSwitcher;
use crate::widget::Key;
use crate::Opt;

pub mod no_yaml;
pub mod no_yaml_found;
pub mod yaml_found;

verus! {

/// What wakes the loop that draws the screen.
#[derive(Debug, Clone, Copy, PartialEq, Eq, Structural)]
pub enum UiEvent {
    Input(Key),
    RefreshOnNewData,
}

/// The screen that the program starts with: three panes where a manifest was found, two
/// where none was.
#[derive(Debug)]
pub enum Screen {
    YamlFound(yaml_found::Ui),
    NoYamlFound(no_yaml_found::Ui),
}

/// Sets up the screen for the given options and the manifest that was found, if any.
pub fn create_ui(opt: &Opt, switcher: Option<ServiceSwitcher>) -> (r: Screen)
    ensures
        match switcher {
            Some(manifest) => r is YamlFound && r->YamlFound_0@ == yaml_found::Ui::start(
                crate::repository::text_view(opt.repo),
                manifest@,
            ),
            None => r is NoYamlFound && r->NoYamlFound_0@ == no_yaml_found::Ui::start(
                crate::repository::text_view(opt.repo),
            ),
        },
{
    let repo_id = match &opt.repo {
        Some(repo) => Some(repo.as_str()),
        None => None,
    };
    match switcher {
        Some(switcher) => Screen::YamlFound(yaml_found::Ui::new(repo_id, switcher)),
        None => Screen::NoYamlFound(no_yaml_found::Ui::new(repo_id)),
    }
}

} // verus!
