use rnes::comp::controller::Controller;
use rnes::comp::controller::ControllerButtons;

#[test]
fn test_strobe_mode() {
    let mut joypad = Controller::new();
    joypad.write(1);
    joypad.set_button_pressed_status(ControllerButtons::BUTTON_A, true);
    for _x in 0..10 {
        assert_eq!(joypad.read(), 1);
    }
}

#[test]
fn test_strobe_mode_on_off() {
    let mut joypad = Controller::new();

    joypad.write(0);
    joypad.set_button_pressed_status(ControllerButtons::RIGHT, true);
    joypad.set_button_pressed_status(ControllerButtons::LEFT, true);
    joypad.set_button_pressed_status(ControllerButtons::SELECT, true);
    joypad.set_button_pressed_status(ControllerButtons::BUTTON_B, true);

    for _ in 0..=1 {
        assert_eq!(joypad.read(), 0);
        assert_eq!(joypad.read(), 1);
        assert_eq!(joypad.read(), 1);
        assert_eq!(joypad.read(), 0);
        assert_eq!(joypad.read(), 0);
        assert_eq!(joypad.read(), 0);
        assert_eq!(joypad.read(), 1);
        assert_eq!(joypad.read(), 1);

        for _x in 0..10 {
            assert_eq!(joypad.read(), 1);
        }
        joypad.write(1);
        joypad.write(0);
    }
}
