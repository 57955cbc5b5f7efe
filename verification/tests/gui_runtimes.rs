use wrac_plugin::wrac_clap_adapter::api::PluginError;
use wrac_plugin::wrac_wxp_gui::runtime::GuiRuntimes;

#[test]
fn runtimes_are_found_by_their_handles() {
    let mut runtimes: GuiRuntimes<String> = GuiRuntimes::new();
    let first = runtimes.insert("first".to_string());
    let second = runtimes.insert("second".to_string());
    assert_ne!(first, second);
    assert_eq!(runtimes.next_handle(), second + 1);
    runtimes.get_mut(second).unwrap().push('!');
    assert_eq!(runtimes.get_mut(second).unwrap(), "second!");
    assert_eq!(runtimes.remove(first), Some("first".to_string()));
    assert_eq!(runtimes.remove(first), None);
    assert_eq!(runtimes.get_mut(first).err(), Some(PluginError::InvalidState));
    let third = runtimes.insert("third".to_string());
    assert_ne!(third, first);
    assert_eq!(runtimes.get_mut(second).unwrap(), "second!");
}
