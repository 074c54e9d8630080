//! The control loop's state object: dispatches every inbound control-plane
//! message to the camera connection state machine and collects what has to go
//! out to the other loops and to the remote viewers.

use vstd::prelude::*;

use crate::camera::{CameraController, CameraTick};
use crate::config::ServiceConfig;
use crate::device::{AutoExposure, ImagerDevice, ImagerDriver};
use crate::messages::{
    CameraParamMessage, ClientMessage, IoMessage, ProcessMessage, StateMessage, StorageMessage,
};
use crate::params::CameraParams;

verus! {

/// Everything one processed message or periodic tick sends onward.
pub struct BackendResult {
    pub client_messages: Vec<ClientMessage>,
    pub storage_messages: Vec<StorageMessage>,
    pub io_messages: Vec<IoMessage>,
    pub process_messages: Vec<ProcessMessage>,
    pub warnings: Vec<String>,
    /// When set, the process should run this shutdown command and terminate.
    pub power_off: Option<String>,
}

impl BackendResult {
    pub fn empty() -> (r: Self)
        ensures
            r.client_messages@.len() == 0,
            r.storage_messages@.len() == 0,
            r.io_messages@.len() == 0,
            r.process_messages@.len() == 0,
            r.warnings@.len() == 0,
            r.power_off is None,
    {
        BackendResult {
            client_messages: Vec::new(),
            storage_messages: Vec::new(),
            io_messages: Vec::new(),
            process_messages: Vec::new(),
            warnings: Vec::new(),
            power_off: None,
        }
    }

    pub fn client(client_messages: Vec<ClientMessage>) -> (r: Self)
        ensures
            r.client_messages == client_messages,
            r.storage_messages@.len() == 0,
            r.io_messages@.len() == 0,
            r.process_messages@.len() == 0,
            r.warnings@.len() == 0,
            r.power_off is None,
    {
        BackendResult {
            client_messages,
            storage_messages: Vec::new(),
            io_messages: Vec::new(),
            process_messages: Vec::new(),
            warnings: Vec::new(),
            power_off: None,
        }
    }

    pub fn client_io(client: Vec<ClientMessage>, io: Vec<IoMessage>) -> (r: Self)
        ensures
            r.client_messages == client,
            r.io_messages == io,
            r.storage_messages@.len() == 0,
            r.process_messages@.len() == 0,
            r.warnings@.len() == 0,
            r.power_off is None,
    {
        BackendResult {
            client_messages: client,
            storage_messages: Vec::new(),
            io_messages: io,
            process_messages: Vec::new(),
            warnings: Vec::new(),
            power_off: None,
        }
    }
}

/// Nothing goes to the storage, IO or conversion queues, no warnings, no
/// shutdown: the result carries client messages at most.
pub open spec fn quiet_except_client(out: BackendResult) -> bool {
    &&& out.storage_messages@.len() == 0
    &&& out.io_messages@.len() == 0
    &&& out.process_messages@.len() == 0
    &&& out.warnings@.len() == 0
    &&& out.power_off is None
}

/// The message list is exactly one snapshot describing the given controller.
pub open spec fn one_view<Drv: ImagerDriver<D>, D: ImagerDevice>(
    messages: Seq<ClientMessage>,
    camera: CameraController<Drv, D>,
) -> bool {
    &&& messages.len() == 1
    &&& messages[0] matches ClientMessage::View(b) && camera.view_matches(*b)
}

/// The state owned by the control loop: the camera machine and the last
/// preview sent to viewers.
pub struct BackendState<Drv: ImagerDriver<D>, D: ImagerDevice> {
    pub camera: CameraController<Drv, D>,
    pub image: Option<Vec<u8>>,
}

impl<Drv: ImagerDriver<D>, D: ImagerDevice> BackendState<Drv, D> {
    pub open spec fn wf(self) -> bool {
        self.camera.wf()
    }

    pub fn new(driver: Drv, config: ServiceConfig) -> (r: Self)
        requires
            config.roi.x <= u16::MAX,
            config.roi.y <= u16::MAX,
            config.roi.width <= u16::MAX,
            config.roi.height <= u16::MAX,
        ensures
            r.wf(),
            r.camera.state is Error,
            r.camera.camera_params == CameraParams::new_spec(),
            !r.camera.turning_off,
            r.image is None,
    {
        BackendState { camera: CameraController::new(driver, config), image: None }
    }

    /// Processes one inbound control-plane message and returns what goes out.
    pub fn process<A: AutoExposure>(
        &mut self,
        message: StateMessage,
        solver: Option<&A>,
    ) -> (r: Result<BackendResult, String>)
        requires
            old(self).wf(),
        ensures
            final(self).wf(),
            r matches Ok(out) ==> {
                &&& (message matches StateMessage::ClientInformation(_) ==> {
                    &&& *final(self) == *old(self)
                    &&& one_view(out.client_messages@, final(self).camera)
                    &&& quiet_except_client(out)
                })
                &&& (message matches StateMessage::ImageDisplayed(img) ==> {
                    &&& final(self).camera == old(self).camera
                    &&& final(self).image == Some(img)
                    &&& out.client_messages@.len() == 0
                    &&& quiet_except_client(out)
                })
                &&& (message matches StateMessage::CameraParam(m) ==> {
                    &&& final(self).camera.camera_params
                        == crate::camera::update_camera_params_spec(
                        old(self).camera.camera_params,
                        m,
                    )
                    &&& one_view(out.client_messages@, final(self).camera)
                    &&& (m matches CameraParamMessage::SetHeatingPwm(v) ==> {
                        &&& out.io_messages@.len() == 1
                        &&& out.io_messages@[0] == IoMessage::SetHeating(v)
                    })
                    &&& (!(m is SetHeatingPwm) ==> out.io_messages@.len() == 0)
                    &&& out.storage_messages@.len() == 0
                    &&& out.process_messages@.len() == 0
                    &&& out.warnings@.len() == 0
                    &&& out.power_off is None
                })
                &&& (message matches StateMessage::ImageParam(m) ==> {
                    &&& final(self).camera.image_params
                        == crate::camera::update_image_params_spec(
                        old(self).camera.image_params,
                        m,
                    )
                    &&& out.client_messages@.len() == 0
                    &&& quiet_except_client(out)
                })
                &&& (message is ExposureMessage ==> {
                    &&& one_view(out.client_messages@, final(self).camera)
                    &&& final(self).camera.state == old(self).camera.state
                    &&& quiet_except_client(out)
                })
                &&& (message is ClientConnected ==> {
                    &&& *final(self) == *old(self)
                    &&& 1 <= out.client_messages@.len() <= 2
                    &&& (out.client_messages@[0] matches ClientMessage::View(b)
                        && final(self).camera.view_matches(*b))
                    &&& (old(self).image matches Some(i) ==> out.client_messages@.len() == 2
                        && (out.client_messages@[1] matches ClientMessage::PngImage(b) && b@
                        == i@))
                    &&& (old(self).image is None ==> out.client_messages@.len() == 1)
                    &&& quiet_except_client(out)
                })
                &&& (message matches StateMessage::UpdateStorageState(st) ==> {
                    &&& final(self).camera.storage_status == st
                    &&& one_view(out.client_messages@, final(self).camera)
                    &&& quiet_except_client(out)
                })
                &&& (message matches StateMessage::TriggerValueChanged(v) ==> {
                    &&& final(self).camera.trigger_active == v
                    &&& out.storage_messages@.len() == out.process_messages@.len()
                    &&& out.storage_messages@.len() <= 1
                    &&& (!old(self).camera.turning_off ==> out.io_messages@.len() == 1
                        && (out.io_messages@[0] matches IoMessage::SetExposureActive(b)
                        && b == final(self).camera.exposure_active_spec()))
                    &&& (old(self).camera.turning_off ==> out.io_messages@.len() == 0)
                    &&& out.power_off is None
                })
                &&& (message matches StateMessage::StorageMessage(m) ==> {
                    &&& *final(self) == *old(self)
                    &&& out.storage_messages@ =~= seq![m]
                    &&& out.client_messages@.len() == 0
                    &&& out.io_messages@.len() == 0
                    &&& out.process_messages@.len() == 0
                    &&& out.warnings@.len() == 0
                    &&& out.power_off is None
                })
                &&& (message matches StateMessage::UpdateStorageDetail(d) ==> {
                    &&& final(self).camera.storage_detail == d
                    &&& one_view(out.client_messages@, final(self).camera)
                    &&& quiet_except_client(out)
                })
                &&& (message is PowerOff ==> {
                    &&& final(self).camera.turning_off
                    &&& out.client_messages@.len() == 0
                    &&& out.storage_messages@.len() == 0
                    &&& out.io_messages@.len() == 0
                    &&& out.process_messages@.len() == 0
                    &&& out.power_off matches Some(cmd)
                        && cmd@ == old(self).camera.config.turn_off_command@
                })
            },
            r is Ok,
    {
        match message {
            StateMessage::ClientInformation(_info) => Ok(self.return_view()),
            StateMessage::ImageDisplayed(image) => {
                self.image = Some(image);
                Ok(BackendResult::empty())
            },
            StateMessage::CameraParam(m) => {
                let heating = match m {
                    CameraParamMessage::SetHeatingPwm(value) => Some(value),
                    _ => None,
                };
                self.camera.update_camera_params(&m);
                match heating {
                    None => Ok(self.return_view()),
                    Some(value) => {
                        let mut io: Vec<IoMessage> = Vec::new();
                        io.push(IoMessage::SetHeating(value));
                        let mut client: Vec<ClientMessage> = Vec::new();
                        client.push(ClientMessage::View(Box::new(self.camera.get_view())));
                        Ok(BackendResult::client_io(client, io))
                    },
                }
            },
            StateMessage::ImageParam(m) => {
                self.camera.update_image_params(&m);
                Ok(BackendResult::empty())
            },
            StateMessage::ExposureMessage(command) => {
                self.camera.exposure_command(&command);
                Ok(self.return_view())
            },
            StateMessage::ClientConnected => {
                let mut client: Vec<ClientMessage> = Vec::new();
                client.push(ClientMessage::View(Box::new(self.camera.get_view())));
                match &self.image {
                    None => {},
                    Some(image) => {
                        let shown = image.clone();
                        proof {
                            assert(shown@ =~= self.image->0@);
                        }
                        client.push(ClientMessage::PngImage(shown));
                    },
                }
                Ok(BackendResult::client(client))
            },
            StateMessage::UpdateStorageState(storage_state) => {
                self.camera.update_storage_status(storage_state);
                Ok(self.return_view())
            },
            StateMessage::TriggerValueChanged(value) => {
                self.camera.update_trigger_status(value);
                // The trigger may have just enabled a waiting exposure, so
                // the idle work runs at once.
                let tick = self.camera.periodic(solver);
                let CameraTick { client, io, storage, process, warnings } = tick;
                Ok(
                    BackendResult {
                        client_messages: client,
                        storage_messages: storage,
                        io_messages: io,
                        process_messages: process,
                        warnings,
                        power_off: None,
                    },
                )
            },
            StateMessage::StorageMessage(m) => {
                let mut storage: Vec<StorageMessage> = Vec::new();
                storage.push(m);
                Ok(
                    BackendResult {
                        client_messages: Vec::new(),
                        storage_messages: storage,
                        io_messages: Vec::new(),
                        process_messages: Vec::new(),
                        warnings: Vec::new(),
                        power_off: None,
                    },
                )
            },
            StateMessage::UpdateStorageDetail(detail) => {
                self.camera.update_storage_detail(detail);
                Ok(self.return_view())
            },
            StateMessage::PowerOff => {
                let command = self.camera.turn_off();
                let mut out = BackendResult::empty();
                out.power_off = Some(command);
                Ok(out)
            },
        }
    }

    /// One periodic tick of the control loop.
    pub fn periodic<A: AutoExposure>(&mut self, solver: Option<&A>) -> (r: Result<
        BackendResult,
        String,
    >)
        requires
            old(self).wf(),
        ensures
            final(self).wf(),
            final(self).camera.camera_params == old(self).camera.camera_params,
            r is Ok,
            r matches Ok(out) ==> {
                &&& out.storage_messages@.len() == out.process_messages@.len()
                &&& out.storage_messages@.len() <= 1
                &&& (out.storage_messages@.len() == 1 ==> (out.storage_messages@[0]
                    matches StorageMessage::ProcessImage(ri) && {
                    &&& ri.wf()
                    &&& out.process_messages@[0] matches ProcessMessage::ConvertRawImage(c)
                        && c.image.eqv(ri)
                }))
                &&& (old(self).camera.state is Error ==> out.storage_messages@.len() == 0)
                &&& (!old(self).camera.turning_off ==> {
                    &&& out.io_messages@.len() == 1
                    &&& out.io_messages@[0] matches IoMessage::SetExposureActive(v)
                        && v == final(self).camera.exposure_active_spec()
                    &&& final(self).camera.view matches Some(nv)
                        && final(self).camera.view_matches(nv)
                    &&& out.client_messages@.len() <= 1
                    &&& (out.client_messages@.len() == 1 <==> !(old(self).camera.view
                        matches Some(ov) && ov.eqv(final(self).camera.view->0)))
                    &&& (out.client_messages@.len() == 1 ==> (out.client_messages@[0]
                        matches ClientMessage::View(b) && b.eqv(final(self).camera.view->0)))
                })
                &&& (old(self).camera.turning_off ==> out.client_messages@.len() == 0)
                &&& out.power_off is None
            },
    {
        let tick = self.camera.periodic(solver);
        let CameraTick { client, io, storage, process, warnings } = tick;
        Ok(
            BackendResult {
                client_messages: client,
                storage_messages: storage,
                io_messages: io,
                process_messages: process,
                warnings,
                power_off: None,
            },
        )
    }
}

impl<Drv: ImagerDriver<D>, D: ImagerDevice> BackendState<Drv, D> {
    fn return_view(&self) -> (r: BackendResult)
        ensures
            one_view(r.client_messages@, self.camera),
            r.storage_messages@.len() == 0,
            r.io_messages@.len() == 0,
            r.process_messages@.len() == 0,
            r.warnings@.len() == 0,
            r.power_off is None,
    {
        let mut client: Vec<ClientMessage> = Vec::new();
        client.push(ClientMessage::View(Box::new(self.camera.get_view())));
        BackendResult::client(client)
    }
}

} // verus!
