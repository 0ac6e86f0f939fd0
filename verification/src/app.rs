//! The application state and the transitions that user commands make on it.

use crate::collection::{Collection, CollectionView};
use crate::editor::{spec_extract, spec_load, BodyEditor, TextInput};
use crate::method::{spec_next_method, Method};
use crate::request::{Request, RequestView};
use crate::transport::{
    map_outcome, spec_map_outcome, OutboundCall, OutboundCallView, TransportError,
    TransportResponse,
};
use vstd::prelude::*;

verus! {

/// The mode of the interface. Exactly one is active at a time.
#[derive(Clone, Copy, Debug, PartialEq, Eq, Structural)]
pub enum AppState {
    /// Browsing the collection.
    Normal,
    /// A request is selected and shown.
    SelectedRequest,
    /// The name of a new request is being typed.
    NamingNewRequest,
    /// The URL of the selected request is being edited.
    EditingRequestUrl,
    /// The body of the selected request is being edited.
    EditingRequestBody,
}

/// Why a command was not carried out.
#[derive(Clone, Copy, Debug, PartialEq, Eq, Structural)]
pub enum ActionError {
    /// The command works on the selected request, and none is selected.
    NoSelection,
    /// The index is that of no request.
    IndexOutOfRange,
}

/// The application state as plain values.
pub struct AppView {
    pub state: AppState,
    pub collection: CollectionView,
    /// The text of the input for the name of a new request.
    pub new_request_name: Seq<char>,
    /// The text of the URL editor.
    pub url_text: Seq<char>,
    /// The lines of the body editor.
    pub body_lines: Seq<Seq<char>>,
    /// The scroll position of the response viewer.
    pub result_scroll: nat,
}

impl AppView {
    /// The state at the start: no request, nothing typed.
    pub open spec fn initial() -> AppView {
        AppView {
            state: AppState::Normal,
            collection: CollectionView::empty(),
            new_request_name: Seq::empty(),
            url_text: Seq::empty(),
            body_lines: seq![Seq::<char>::empty()],
            result_scroll: 0,
        }
    }

    /// `Ok` where a request is selected, else the error that says so.
    pub open spec fn check_selection(self) -> Result<(), ActionError> {
        if self.collection.selected is Some {
            Ok(())
        } else {
            Err(ActionError::NoSelection)
        }
    }

    /// `Ok` where `index` is that of a request, else the error that says so.
    pub open spec fn check_index(self, index: nat) -> Result<(), ActionError> {
        if index < self.collection.items.len() {
            Ok(())
        } else {
            Err(ActionError::IndexOutOfRange)
        }
    }

    /// The state with `request` in the place of the selected request.
    pub open spec fn with_selected(self, request: RequestView) -> AppView {
        AppView { collection: self.collection.with_selected(request), ..self }
    }

    /// Selects the request at `index` and loads its URL and its body into
    /// the editors. An index that is out of range changes nothing.
    pub open spec fn select_request(self, index: nat) -> AppView {
        if index < self.collection.items.len() {
            let request = self.collection.items[index as int];
            AppView {
                state: AppState::SelectedRequest,
                collection: self.collection.select(index),
                url_text: request.url,
                body_lines: spec_load(request.body_text()),
                result_scroll: 0,
                ..self
            }
        } else {
            self
        }
    }

    /// Clears the selection and the URL editor.
    pub open spec fn unselect_request(self) -> AppView {
        AppView {
            state: AppState::Normal,
            collection: self.collection.unselect(),
            url_text: Seq::empty(),
            ..self
        }
    }

    /// Appends a request with the name that was typed; an empty name
    /// changes nothing.
    pub open spec fn new_request(self) -> AppView {
        if self.new_request_name.len() == 0 {
            self
        } else {
            AppView {
                state: AppState::Normal,
                collection: self.collection.append(RequestView::new(self.new_request_name)),
                ..self
            }
        }
    }

    /// Removes the selected request and clears the selection; changes
    /// nothing where no request is selected.
    pub open spec fn delete_request(self) -> AppView {
        if self.collection.selected is Some {
            AppView {
                state: AppState::Normal,
                collection: self.collection.remove_selected(),
                ..self
            }
        } else {
            self
        }
    }

    /// Writes the text of the URL editor into the selected request.
    pub open spec fn modify_request_url(self) -> AppView {
        match self.collection.selected_request() {
            Some(request) => AppView {
                state: AppState::SelectedRequest,
                ..self.with_selected(request.with_url(self.url_text))
            },
            None => self,
        }
    }

    /// Advances the method of the selected request by one step.
    pub open spec fn modify_request_method(self) -> AppView {
        match self.collection.selected_request() {
            Some(request) => self.with_selected(
                request.with_method(spec_next_method(request.method)),
            ),
            None => self,
        }
    }

    /// Loads `text` into the body editor.
    pub open spec fn refresh_body_textarea(self, text: Seq<char>) -> AppView {
        AppView { body_lines: spec_load(text), ..self }
    }

    /// Writes the content of the body editor into the selected request, and
    /// loads the editor again from what was written.
    pub open spec fn modify_request_body(self) -> AppView {
        match self.collection.selected_request() {
            Some(request) => {
                let body = spec_extract(self.body_lines);
                AppView {
                    state: AppState::SelectedRequest,
                    body_lines: spec_load(body),
                    ..self.with_selected(request.with_body(Some(body)))
                }
            },
            None => self,
        }
    }

    /// Gives the selected request an empty body where it has none, and
    /// takes its body away where it has one. The body editor is emptied.
    pub open spec fn toggle_request_body(self) -> AppView {
        match self.collection.selected_request() {
            Some(request) => match request.body {
                None => AppView {
                    state: AppState::EditingRequestBody,
                    body_lines: spec_load(Seq::empty()),
                    ..self.with_selected(request.with_body(Some(Seq::empty())))
                },
                Some(_) => AppView {
                    state: AppState::SelectedRequest,
                    body_lines: spec_load(Seq::empty()),
                    ..self.with_selected(request.with_body(None))
                },
            },
            None => self,
        }
    }

    /// Loads the body editor again from the selected request: what was
    /// typed and not confirmed is gone.
    pub open spec fn quit_request_body(self) -> AppView {
        match self.collection.selected_request() {
            Some(request) => AppView {
                state: AppState::SelectedRequest,
                body_lines: spec_load(request.body_text()),
                ..self
            },
            None => self,
        }
    }

    /// The call that dispatching the selected request makes.
    pub open spec fn send_request(self) -> Result<OutboundCallView, ActionError> {
        match self.collection.selected_request() {
            Some(request) => Ok(
                OutboundCallView { method: request.method, url: request.url, body: request.body },
            ),
            None => Err(ActionError::NoSelection),
        }
    }

    /// Writes the result of a dispatch into the selected request and moves
    /// the response viewer to the top.
    pub open spec fn complete_request(
        self,
        outcome: Result<TransportResponse, TransportError>,
    ) -> AppView {
        match self.collection.selected_request() {
            Some(request) => AppView {
                result_scroll: 0,
                ..self.with_selected(request.with_result(spec_map_outcome(outcome)))
            },
            None => self,
        }
    }
}

/// The application state: the collection, the mode of the interface, the
/// editors and the scroll position of the response viewer.
#[derive(Debug)]
pub struct App {
    pub state: AppState,
    pub collection: Collection,
    pub new_request_input: TextInput,
    pub url_text_input: TextInput,
    pub body_text_area: BodyEditor,
    pub result_scroll: u16,
}

impl View for App {
    type V = AppView;

    open spec fn view(&self) -> AppView {
        AppView {
            state: self.state,
            collection: self.collection@,
            new_request_name: self.new_request_input@,
            url_text: self.url_text_input@,
            body_lines: self.body_text_area@,
            result_scroll: self.result_scroll as nat,
        }
    }
}

impl App {
    /// The state at the start: an empty collection, nothing typed.
    pub fn new() -> (app: App)
        ensures
            app@ == AppView::initial(),
    {
        App {
            state: AppState::Normal,
            collection: Collection::new(),
            new_request_input: TextInput::new(),
            url_text_input: TextInput::new(),
            body_text_area: BodyEditor::new(),
            result_scroll: 0,
        }
    }

    /// Selects the request at `index`: empties the URL editor, selects the
    /// request, moves the response viewer to the top, then loads the URL and
    /// the body of the request into the editors. An index that is out of
    /// range is refused, and nothing changes.
    pub fn select_request(&mut self, index: usize) -> (done: Result<(), ActionError>)
        ensures
            done == old(self)@.check_index(index as nat),
            final(self)@ == old(self)@.select_request(index as nat),
    {
        if index >= self.collection.len() {
            return Err(ActionError::IndexOutOfRange);
        }
        self.url_text_input.reset_input();
        self.collection.select(index);
        self.result_scroll = 0;
        match self.collection.selected_request() {
            Some(request) => {
                self.url_text_input.enter_str(request.url().as_str());
                let body = request.body_text();
                self.refresh_body_textarea(body);
                self.state = AppState::SelectedRequest;
            },
            None => {},
        }
        Ok(())
    }

    /// Clears the selection and the URL editor.
    pub fn unselect_request(&mut self)
        ensures
            final(self)@ == old(self)@.unselect_request(),
    {
        self.url_text_input.reset_input();
        self.collection.unselect();
        self.state = AppState::Normal;
    }

    /// Confirms the name of a new request: appends a request of that name
    /// to the collection. An empty name is ignored.
    pub fn new_request(&mut self)
        ensures
            final(self)@ == old(self)@.new_request(),
    {
        if self.new_request_input.text.as_str().is_empty() {
            return ;
        }
        let name = self.new_request_input.text.clone();
        self.collection.append(Request::new(name));
        self.state = AppState::Normal;
    }

    /// Deletes the selected request and clears the selection.
    pub fn delete_request(&mut self) -> (done: Result<(), ActionError>)
        ensures
            done == old(self)@.check_selection(),
            final(self)@ == old(self)@.delete_request(),
    {
        match self.collection.selected() {
            Some(_) => {
                self.collection.remove_selected();
                self.state = AppState::Normal;
                Ok(())
            },
            None => Err(ActionError::NoSelection),
        }
    }

    /// Confirms the URL edit: the selected request gets the text of the URL
    /// editor as its URL.
    pub fn modify_request_url(&mut self) -> (done: Result<(), ActionError>)
        ensures
            done == old(self)@.check_selection(),
            final(self)@ == old(self)@.modify_request_url(),
    {
        let url = self.url_text_input.text.clone();
        match self.collection.selected_request_mut() {
            Some(request) => {
                request.set_url(url);
                self.state = AppState::SelectedRequest;
                Ok(())
            },
            None => Err(ActionError::NoSelection),
        }
    }

    /// Advances the method of the selected request to the next of the cycle.
    pub fn modify_request_method(&mut self) -> (done: Result<(), ActionError>)
        ensures
            done == old(self)@.check_selection(),
            final(self)@ == old(self)@.modify_request_method(),
    {
        match self.collection.selected_request_mut() {
            Some(request) => {
                request.cycle_method();
                Ok(())
            },
            None => Err(ActionError::NoSelection),
        }
    }

    /// Replaces the whole content of the body editor by the lines of `text`.
    pub fn refresh_body_textarea(&mut self, text: String)
        ensures
            final(self)@ == old(self)@.refresh_body_textarea(text@),
    {
        self.body_text_area = BodyEditor::load(text.as_str());
    }

    /// Confirms the body edit: the selected request gets the content of the
    /// body editor as its body, and the editor is loaded again from it.
    pub fn modify_request_body(&mut self) -> (done: Result<(), ActionError>)
        ensures
            done == old(self)@.check_selection(),
            final(self)@ == old(self)@.modify_request_body(),
    {
        let body = self.body_text_area.extract();
        match self.collection.selected_request_mut() {
            Some(request) => {
                request.set_body(Some(body.clone()));
                self.state = AppState::SelectedRequest;
                self.refresh_body_textarea(body);
                Ok(())
            },
            None => Err(ActionError::NoSelection),
        }
    }

    /// Toggles the body of the selected request: a request without a body
    /// gets the empty body and its editing starts, a request with a body
    /// loses it. Either way the body editor is emptied.
    pub fn toggle_request_body(&mut self) -> (done: Result<(), ActionError>)
        ensures
            done == old(self)@.check_selection(),
            final(self)@ == old(self)@.toggle_request_body(),
    {
        match self.collection.selected_request_mut() {
            Some(request) => {
                if request.body().is_some() {
                    request.set_body(None);
                    self.state = AppState::SelectedRequest;
                } else {
                    request.set_body(Some(String::new()));
                    self.state = AppState::EditingRequestBody;
                }
                self.refresh_body_textarea(String::new());
                Ok(())
            },
            None => Err(ActionError::NoSelection),
        }
    }

    /// Cancels the body edit: the body editor is loaded again from the body
    /// of the selected request, or emptied where it has none.
    pub fn quit_request_body(&mut self) -> (done: Result<(), ActionError>)
        ensures
            done == old(self)@.check_selection(),
            final(self)@ == old(self)@.quit_request_body(),
    {
        match self.collection.selected_request() {
            Some(request) => {
                let body = request.body_text();
                self.refresh_body_textarea(body);
                self.state = AppState::SelectedRequest;
                Ok(())
            },
            None => Err(ActionError::NoSelection),
        }
    }

    /// The one call that dispatching the selected request makes: its method,
    /// its URL, and its body where it has one. The state does not change.
    pub fn send_request(&self) -> (call: Result<OutboundCall, ActionError>)
        ensures
            match call {
                Ok(call) => self@.send_request() == Ok::<OutboundCallView, ActionError>(call@),
                Err(error) => self@.send_request() == Err::<OutboundCallView, ActionError>(error),
            },
    {
        match self.collection.selected_request() {
            Some(request) => {
                let body = match request.body() {
                    Some(body) => Some(body.clone()),
                    None => None,
                };
                Ok(OutboundCall { method: request.method(), url: request.url().clone(), body })
            },
            None => Err(ActionError::NoSelection),
        }
    }

    /// Completes a dispatch: writes the result that `outcome` maps to into
    /// the selected request, then moves the response viewer to the top.
    pub fn complete_request(
        &mut self,
        outcome: Result<TransportResponse, TransportError>,
    ) -> (done: Result<(), ActionError>)
        ensures
            done == old(self)@.check_selection(),
            final(self)@ == old(self)@.complete_request(outcome),
    {
        match self.collection.selected_request_mut() {
            Some(request) => {
                request.set_result(map_outcome(outcome));
                self.result_scroll = 0;
                Ok(())
            },
            None => Err(ActionError::NoSelection),
        }
    }
}

/// What a user can do to the selected request, and to the editors, before
/// the request is unselected.
pub enum Edit {
    /// Types in the URL editor, which then holds `text`.
    TypeUrl { text: Seq<char> },
    /// Types in the body editor, which then holds `lines`.
    TypeBody { lines: Seq<Seq<char>> },
    ConfirmUrl,
    CycleMethod,
    ConfirmBody,
    ToggleBody,
    CancelBody,
    /// Sends the request; the transport answers with `outcome`.
    Send { outcome: Result<TransportResponse, TransportError> },
}

impl AppView {
    /// The state after `edit`.
    pub open spec fn edit(self, edit: Edit) -> AppView {
        match edit {
            Edit::TypeUrl { text } => AppView { url_text: text, ..self },
            Edit::TypeBody { lines } => AppView { body_lines: lines, ..self },
            Edit::ConfirmUrl => self.modify_request_url(),
            Edit::CycleMethod => self.modify_request_method(),
            Edit::ConfirmBody => self.modify_request_body(),
            Edit::ToggleBody => self.toggle_request_body(),
            Edit::CancelBody => self.quit_request_body(),
            Edit::Send { outcome } => self.complete_request(outcome),
        }
    }

    /// The state after `edits`, made in their order.
    pub open spec fn edits(self, edits: Seq<Edit>) -> AppView
        decreases edits.len(),
    {
        if edits.len() == 0 {
            self
        } else {
            self.edits(edits.drop_last()).edit(edits.last())
        }
    }
}

/// Confirming an empty name changes nothing. Confirming any other name
/// appends exactly one request: it has that name, an empty URL, the method
/// GET, no body and no result. The requests that were there and the
/// selection stay, and the interface is in `Normal`.
pub proof fn lemma_new_request_appends_one(app: AppView)
    ensures
        app.new_request_name.len() == 0 ==> app.new_request() == app,
        app.new_request_name.len() > 0 ==> {
            let after = app.new_request();
            &&& after.state == AppState::Normal
            &&& after.collection.items.len() == app.collection.items.len() + 1
            &&& after.collection.items.drop_last() == app.collection.items
            &&& after.collection.items.last() == RequestView::new(app.new_request_name)
            &&& after.collection.items.last().name == app.new_request_name
            &&& after.collection.items.last().url.len() == 0
            &&& after.collection.items.last().method == Method::Get
            &&& after.collection.items.last().body is None
            &&& after.collection.selected == app.collection.selected
            &&& after.collection.cursor == app.collection.cursor
            &&& after == AppView { state: after.state, collection: after.collection, ..app }
        },
{
}

/// Every command leaves the collection valid: the selection, where there
/// is one, is the index of a request, and the list on screen points at it.
pub proof fn lemma_commands_keep_collection_valid(
    app: AppView,
    index: nat,
    text: Seq<char>,
    outcome: Result<TransportResponse, TransportError>,
)
    requires
        app.collection.wf(),
    ensures
        app.select_request(index).collection.wf(),
        app.unselect_request().collection.wf(),
        app.new_request().collection.wf(),
        app.delete_request().collection.wf(),
        app.modify_request_url().collection.wf(),
        app.modify_request_method().collection.wf(),
        app.refresh_body_textarea(text).collection.wf(),
        app.modify_request_body().collection.wf(),
        app.toggle_request_body().collection.wf(),
        app.quit_request_body().collection.wf(),
        app.complete_request(outcome).collection.wf(),
{
}

/// Edits keep the selection and the number of requests.
pub proof fn lemma_edits_keep_selection(app: AppView, edits: Seq<Edit>)
    requires
        app.collection.wf(),
    ensures
        app.edits(edits).collection.wf(),
        app.edits(edits).collection.selected == app.collection.selected,
        app.edits(edits).collection.items.len() == app.collection.items.len(),
    decreases edits.len(),
{
    if edits.len() > 0 {
        lemma_edits_keep_selection(app, edits.drop_last());
    }
}

/// Selecting a request and unselecting it leaves no request selected, the
/// list on screen without a cursor and the URL editor empty, whatever was
/// edited in between; no request is lost on the way.
pub proof fn lemma_select_then_unselect(app: AppView, index: nat, edits: Seq<Edit>)
    requires
        app.collection.wf(),
        index < app.collection.items.len(),
    ensures
        app.select_request(index).collection.selected == Some(index),
        ({
            let after = app.select_request(index).edits(edits).unselect_request();
            &&& after.collection.selected is None
            &&& after.collection.cursor is None
            &&& after.url_text == Seq::<char>::empty()
            &&& after.state == AppState::Normal
            &&& after.collection.items.len() == app.collection.items.len()
        }),
{
    lemma_edits_keep_selection(app.select_request(index), edits);
}

/// Toggling the body twice brings a request without a body back to where
/// it was. A request with a body ends with the empty body: what the body
/// held is not restored. Nothing else of the request or of the collection
/// changes.
pub proof fn lemma_toggle_body_twice(app: AppView)
    requires
        app.collection.wf(),
        app.collection.selected is Some,
    ensures
        ({
            let request = app.collection.selected_request().unwrap();
            let twice = app.toggle_request_body().toggle_request_body();
            &&& request.body is None ==> twice.collection == app.collection
            &&& request.body is Some ==> twice.collection == app.collection.with_selected(
                request.with_body(Some(Seq::empty())),
            )
        }),
{
    let request = app.collection.selected_request().unwrap();
    let index = app.collection.selected.unwrap() as int;
    let once = app.toggle_request_body();
    let twice = once.toggle_request_body();
    if request.body is None {
        assert(twice.collection.items =~= app.collection.items);
    } else {
        assert(twice.collection.items =~= app.collection.items.update(
            index,
            request.with_body(Some(Seq::empty())),
        ));
    }
}

} // verus!
