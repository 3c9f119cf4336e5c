use itad_api::api::collection::{Collection, CollectionOptions, ImportCollection, ImportCollectionViaForm};
use itad_api::api::deals::{DealsList, DealsSorting, Direction};
use itad_api::api::endpoint::{Endpoint, Method};
use itad_api::api::error::BuilderError;
use itad_api::api::game::{Bundles, BundlesSorting, HistoricalLow, IdPlainMap, Identifier, MapType, Prices};
use itad_api::api::search::FindGames;
use itad_api::api::user::UserInfo;
use itad_api::api::waitlist::{Waitlist, WaitlistOptions, WaitlistRemove};
use itad_api::api::web::{CoveredStores, Regions, RegionDisplayOptions, StoresInRegion};

fn query_of<E: Endpoint>(e: &E) -> String {
    e.query_parameters().unwrap()
}

#[test]
fn price_list_method_path_and_query() {
    let prices = Prices::builder().plain("witcher3").region("us").build().unwrap();
    assert_eq!(prices.method(), Method::Get);
    assert_eq!(prices.endpoint(), "v01/game/prices/");
    assert!(prices.requires_api_key());
    assert!(!prices.requires_oauth_token());
    assert_eq!(query_of(&prices), "plains=witcher3&region=us");
    assert!(prices.body().unwrap().is_none());
}

#[test]
fn identifier_by_id_needs_shop() {
    let r = Identifier::builder().game_id("123").build();
    assert_eq!(
        r.unwrap_err(),
        BuilderError::ValidationError("Shop is required to be set when looking up by ID".to_string())
    );
    assert!(Identifier::builder().game_id("123").shop("steam").build().is_ok());
}

#[test]
fn identifier_by_url_needs_shop() {
    let r = Identifier::builder().url("https://store/x").build();
    assert_eq!(
        r.unwrap_err(),
        BuilderError::ValidationError("Shop is required to be set when looking up by URL".to_string())
    );
    assert!(Identifier::builder().url("https://store/x").shop("steam").build().is_ok());
    assert!(Identifier::builder().title("Witcher").build().is_ok());
}

#[test]
fn collection_needs_one_of_plain_title_gameid() {
    let r = Collection::builder().option(CollectionOptions::CopyType).build();
    assert_eq!(
        r.unwrap_err(),
        BuilderError::ValidationError("You must specify one of Plain, Title or Gameid".to_string())
    );
    assert!(Collection::builder().build().is_err());
    assert!(Collection::builder().option(CollectionOptions::Title).build().is_ok());
}

#[test]
fn collection_gameid_needs_shop() {
    let r = Collection::builder().option(CollectionOptions::Gameid).build();
    assert_eq!(
        r.unwrap_err(),
        BuilderError::ValidationError("If you set Gameid, you must specify a shop ID".to_string())
    );
    let c = Collection::builder()
        .option(CollectionOptions::Gameid)
        .option(CollectionOptions::Plain)
        .shop("steam")
        .build()
        .unwrap();
    assert!(c.requires_oauth_token());
    assert_eq!(c.endpoint(), "v02/user/coll/all/");
    assert_eq!(query_of(&c), "shop=steam&optional=gameid%2Cplain");
}

#[test]
fn missing_required_field() {
    assert_eq!(FindGames::builder().limit(3).build().unwrap_err(), BuilderError::UninitializedField("q"));
    assert_eq!(IdPlainMap::builder().build().unwrap_err(), BuilderError::UninitializedField("shop"));
    assert_eq!(StoresInRegion::builder().build().unwrap_err(), BuilderError::UninitializedField("region"));
}

#[test]
fn same_values_in_any_order_give_same_query() {
    let a = Prices::builder().plain("b").plain("a").shops(&["steam", "gog"]).build().unwrap();
    let b = Prices::builder().plains(&["a", "b", "a"]).shop("gog").shop("steam").build().unwrap();
    assert_eq!(query_of(&a), query_of(&b));
    assert_eq!(query_of(&a), "plains=a%2Cb&shops=gog%2Csteam");
    assert_eq!(query_of(&a), query_of(&a.clone()));
}

#[test]
fn absent_and_empty_fields_are_omitted() {
    let p = Prices::builder().plain("x").shops(&[]).excludes(&[]).build().unwrap();
    assert_eq!(query_of(&p), "plains=x");
    let p = Prices::builder().plain("x").country("DE").build().unwrap();
    assert_eq!(query_of(&p), "plains=x&country=DE");
    assert_eq!(Prices::builder().region("us").build().unwrap_err(), BuilderError::UninitializedField("plains"));
    let d = itad_api::api::deals::DealsList::builder().shops(&[]).build().unwrap();
    assert_eq!(query_of(&d), "");
    let r = Regions::builder().build().unwrap();
    assert_eq!(query_of(&r), "");
    assert!(!r.requires_api_key() && !r.requires_oauth_token());
}

#[test]
fn numbers_flags_and_enums_in_query() {
    let f = FindGames::builder().q("half life").limit(20).strict(true).build().unwrap();
    assert_eq!(query_of(&f), "q=half+life&limit=20&strict=1");
    let h = HistoricalLow::builder().plain("x").since(1600000000).new(false).build().unwrap();
    assert_eq!(query_of(&h), "plains=x&since=1600000000&new=false");
    let b = Bundles::builder().plain("x").limit(-5).expired(true).sort(BundlesSorting::Recent).build().unwrap();
    assert_eq!(query_of(&b), "plains=x&limit=-5&expired=true&sort=recent");
    let m = IdPlainMap::builder().shop("steam").type_field(MapType::IdToPlain).build().unwrap();
    assert_eq!(query_of(&m), "shop=steam&type=id%3Aplain");
    let w = Waitlist::builder().optional(WaitlistOptions::Gameid).build().unwrap();
    assert_eq!(query_of(&w), "optional=gameid");
    let r = Regions::builder().option(RegionDisplayOptions::Names).build().unwrap();
    assert_eq!(query_of(&r), "optional=names");
}

#[test]
fn deals_sorting_text() {
    let d = DealsList::builder()
        .offset(0)
        .limit(10)
        .sort(DealsSorting::Price(Direction::Desc))
        .build()
        .unwrap();
    assert_eq!(query_of(&d), "offset=0&limit=10&sort=price%3Adesc");
    let d = DealsList::builder().sort(DealsSorting::Expiry(Direction::Asc)).build().unwrap();
    assert_eq!(query_of(&d), "sort=expiry%3Aasc");
}

#[test]
fn delete_and_plain_endpoints() {
    let w = WaitlistRemove::builder().id("app/1").id("app/2").build().unwrap();
    assert_eq!(w.method(), Method::Delete);
    assert_eq!(w.endpoint(), "v02/user/wait/remove/");
    assert_eq!(query_of(&w), "ids=app%2F1%2Capp%2F2");
    let u = UserInfo::new();
    assert_eq!(u.endpoint(), "v01/user/info");
    assert!(u.requires_oauth_token());
    let c = CoveredStores::new();
    assert_eq!(c.endpoint(), "v01/web/stores/all/");
    assert_eq!(query_of(&c), "");
}

#[test]
fn import_bodies() {
    let i = ImportCollection::builder().file("{}").build().unwrap();
    assert_eq!(i.method(), Method::Post);
    assert_eq!(i.body().unwrap(), Some(("application/json", b"{}".to_vec())));
    assert_eq!(query_of(&i), "");
    let f = ImportCollectionViaForm::builder().body("{}").build().unwrap();
    assert!(!f.requires_oauth_token());
    assert_eq!(
        f.body().unwrap(),
        Some(("application/x-www-form-urlencoded", b"file=e30%3D&upload=".to_vec()))
    );
}
