use v4l_output::control::{Command, Member};
use v4l_output::enumerate::Reply;
use v4l_output::negotiate::{Negotiation, Phase, Setting};
use v4l_output::output::{params, set_format, set_params};

#[derive(Clone, Copy, Debug, PartialEq, Eq)]
struct Format {
    width: u32,
    height: u32,
}

#[derive(Clone, Copy, Debug, PartialEq, Eq)]
enum Fault {
    Invalid,
    Malformed,
}

/// A simulated device that clamps every requested size to 1920x1080.
struct Device {
    active: Format,
}

impl Device {
    fn write(&mut self, f: Format) -> Result<(), Fault> {
        if f.width == 0 || f.height == 0 {
            return Err(Fault::Invalid);
        }
        self.active = Format { width: f.width.min(1920), height: f.height.min(1080) };
        Ok(())
    }

    fn read(&self) -> Reply<Format, Fault> {
        Reply::Decoded(self.active)
    }
}

fn do_set(dev: &mut Device, f: Format, mplane: bool) -> Result<Format, Fault> {
    let n = set_format(mplane);
    let req = n.request();
    assert_eq!(req.command, Command::SetFormat);
    let n = n.written(dev.write(f))?;
    let req = n.request();
    assert_eq!(req.command, Command::GetFormat);
    n.read(dev.read())
}

fn do_get(dev: &Device, mplane: bool) -> Result<Format, Fault> {
    v4l_output::output::format(mplane).read(dev.read())
}

#[test]
fn set_format_reports_device_value() {
    let mut dev = Device { active: Format { width: 640, height: 480 } };
    let asked = Format { width: 100_000, height: 100_000 };
    let got = do_set(&mut dev, asked, false);
    assert_eq!(got, Ok(Format { width: 1920, height: 1080 }));
    assert_ne!(got, Ok(asked));
}

#[test]
fn format_after_set_format_is_stable() {
    let mut dev = Device { active: Format { width: 640, height: 480 } };
    let after_set = do_set(&mut dev, Format { width: 800, height: 600 }, true);
    assert_eq!(after_set, Ok(Format { width: 800, height: 600 }));
    assert_eq!(do_get(&dev, true), after_set);
    assert_eq!(do_get(&dev, true), after_set);
}

#[test]
fn set_format_write_refused_is_error() {
    let mut dev = Device { active: Format { width: 640, height: 480 } };
    let got = do_set(&mut dev, Format { width: 0, height: 480 }, false);
    assert_eq!(got, Err(Fault::Invalid));
    assert_eq!(dev.active, Format { width: 640, height: 480 });
}

#[test]
fn read_refused_or_undecodable_is_error() {
    assert_eq!(v4l_output::output::format(false).read::<Format, Fault>(Reply::Failed(Fault::Invalid)), Err(Fault::Invalid));
    assert_eq!(params(false).read::<u32, Fault>(Reply::Rejected(Fault::Malformed)), Err(Fault::Malformed));
    assert_eq!(params(true).read::<u32, Fault>(Reply::Decoded(30)), Ok(30));
}

#[test]
fn format_requests_select_planar_member() {
    let single = v4l_output::output::format(false).request();
    assert_eq!(single.command, Command::GetFormat);
    assert_eq!(single.buf_type, 2);
    assert_eq!(single.member, Member::Pix);
    assert_eq!(single.index, 0);
    let multi = set_format(true).request();
    assert_eq!(multi.command, Command::SetFormat);
    assert_eq!(multi.buf_type, 10);
    assert_eq!(multi.member, Member::PixMp);
}

#[test]
fn params_requests_use_output_member() {
    let get = params(true).request();
    assert_eq!(get.command, Command::GetParams);
    assert_eq!(get.buf_type, 10);
    assert_eq!(get.member, Member::Output);
    let set = set_params(false);
    assert_eq!(set, Negotiation { setting: Setting::Params, mplane: false, phase: Phase::Writing });
    assert_eq!(set.request().command, Command::SetParams);
    let reading = set.written::<Fault>(Ok(())).unwrap();
    assert_eq!(reading.phase, Phase::Reading);
    assert_eq!(reading.request().command, Command::GetParams);
    assert_eq!(reading.request().buf_type, 2);
    assert_eq!(set.written::<Fault>(Err(Fault::Invalid)), Err(Fault::Invalid));
}
