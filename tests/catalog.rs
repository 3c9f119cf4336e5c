use itad_api::api::collection::{CollectionCheck, CollectionCheckOptions, ImportCollectionViaForm};
use itad_api::api::endpoint::{Endpoint, Method};
use itad_api::api::error::{ApiError, BuilderError};
use itad_api::api::game::{
    AllPlains, Bundles, HistoricalLow, Info, InfoOptions, MultiplePlainsById, Overview, OverviewOptions, StoreLow,
};
use itad_api::api::stats::{CollectionChart, PopularityChart, WaitlistChart};
use itad_api::api::waitlist::{ImportWaitlist, ImportWaitlistViaForm, WaitlistCheck};
use itad_api::api::web::{StoresDisplayOptions, StoresInRegion};

fn shape<E: Endpoint>(e: &E) -> (Method, &'static str, bool, bool) {
    (e.method(), e.endpoint(), e.requires_api_key(), e.requires_oauth_token())
}

#[test]
fn catalog_paths_and_credentials() {
    let g = Method::Get;
    assert_eq!(shape(&AllPlains::builder().shop("steam").build().unwrap()), (g, "v01/game/plain/list/", true, false));
    assert_eq!(shape(&Bundles::builder().plain("p").build().unwrap()), (g, "v01/game/bundles/", true, false));
    assert_eq!(shape(&HistoricalLow::builder().plain("p").build().unwrap()), (g, "v01/game/lowest/", true, false));
    assert_eq!(shape(&StoreLow::builder().plain("p").build().unwrap()), (g, "v01/game/storelow/", true, false));
    assert_eq!(shape(&Info::builder().plain("p").build().unwrap()), (g, "v01/game/info/", true, false));
    assert_eq!(shape(&Overview::builder().build().unwrap()), (g, "v01/game/overview/", true, false));
    assert_eq!(
        shape(&MultiplePlainsById::builder().shop("steam").build().unwrap()),
        (g, "v01/game/plain/id/", true, false)
    );
    assert_eq!(shape(&WaitlistChart::builder().build().unwrap()), (g, "v01/stats/waitlist/chart/", true, false));
    assert_eq!(shape(&CollectionChart::builder().build().unwrap()), (g, "v01/stats/collection/chart/", true, false));
    assert_eq!(shape(&PopularityChart::builder().build().unwrap()), (g, "v01/stats/popularity/chart/", true, false));
    assert_eq!(shape(&WaitlistCheck::builder().plain("x").build().unwrap()), (g, "v01/user/wait/", false, true));
    assert_eq!(shape(&CollectionCheck::builder().plain("x").build().unwrap()), (g, "v01/user/coll/", false, true));
    assert_eq!(shape(&StoresInRegion::builder().region("eu1").build().unwrap()), (g, "v02/web/stores/", false, false));
    let p = Method::Post;
    assert_eq!(shape(&ImportWaitlist::builder().file("{}").build().unwrap()), (p, "v01/waitlist/import/", false, true));
    assert_eq!(shape(&ImportWaitlistViaForm::builder().body("{}").build().unwrap()), (p, "waitlist/import/", false, false));
    assert_eq!(
        shape(&ImportCollectionViaForm::builder().body("{}").build().unwrap()),
        (p, "collection/import/", false, false)
    );
}

#[test]
fn options_are_sorted_by_text() {
    let s = StoresInRegion::builder()
        .region("eu1")
        .options(&[StoresDisplayOptions::Deals, StoresDisplayOptions::Catalog])
        .build()
        .unwrap();
    assert_eq!(s.query_parameters().unwrap(), "region=eu1&optional=catalog%2Cdeals");
    let o = Overview::builder()
        .option(OverviewOptions::Voucher)
        .option(OverviewOptions::Local)
        .allowed("steam")
        .alloweds(&["gog"])
        .plain("p")
        .ids(&["app/2", "app/1"])
        .region("eu1")
        .build()
        .unwrap();
    assert_eq!(
        o.query_parameters().unwrap(),
        "region=eu1&plains=p&ids=app%2F1%2Capp%2F2&allowed=gog%2Csteam&optional=local%2Cvoucher"
    );
    let i = Info::builder().plains(&["b", "a"]).options(&[InfoOptions::Metacritic]).build().unwrap();
    assert_eq!(i.query_parameters().unwrap(), "plains=a%2Cb&optional=metacritic");
    let c = CollectionCheck::builder().plain("x").option(CollectionCheckOptions::Stores).build().unwrap();
    assert_eq!(c.query_parameters().unwrap(), "plain=x&optional=stores");
}

#[test]
fn waitlist_form_body_is_base64() {
    let f = ImportWaitlistViaForm::builder().body("{\"a\":1}").build().unwrap();
    let (ct, bytes) = f.body().unwrap().unwrap();
    assert_eq!(ct, "application/x-www-form-urlencoded");
    assert_eq!(String::from_utf8(bytes).unwrap(), "file=eyJhIjoxfQ%3D%3D&upload=");
}

#[test]
fn client_error_wraps_source() {
    match ApiError::client("down".to_string()) {
        ApiError::Client { source } => assert_eq!(source, "down"),
        other => panic!("unexpected {:?}", other),
    }
}

#[test]
fn plains_are_required() {
    assert_eq!(Bundles::builder().build().unwrap_err(), BuilderError::UninitializedField("plains"));
    assert_eq!(HistoricalLow::builder().build().unwrap_err(), BuilderError::UninitializedField("plains"));
    assert_eq!(StoreLow::builder().shop("steam").build().unwrap_err(), BuilderError::UninitializedField("plains"));
    assert_eq!(Info::builder().plains(&[]).build().unwrap_err(), BuilderError::UninitializedField("plains"));
    let i = Info::builder().plain("witcher3").option(InfoOptions::Metacritic).build().unwrap();
    assert_eq!(i.query_parameters().unwrap(), "plains=witcher3&optional=metacritic");
}
