use game_of_life::coordination::service::CoordinatorService;
use game_of_life::handler::memory_handle::MemoryHandle;

#[test]
fn service_init() {
    let service = CoordinatorService::<MemoryHandle>::init();
    assert_eq!(service.state, true, "After initialization, the service should have a property called state that is set to 'true'");
    assert_eq!(service.panels.len(), 0, "After initialization, the service should have a property called windowa that is an empty Vec of Window");
}
